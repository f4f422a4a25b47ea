//! The vocabulary exchanged between the daemon and its clients.
use vstd::prelude::*;

use crate::text::{ascii_lower, ascii_lower_chars, chars_of, concat3, owned, replace_char, replace_char_chars, str_eq, string_of, trim, trim_chars};

verus! {

/// Window snap layout presets.
#[derive(Debug, Clone, Copy, PartialEq, Eq, Hash, Structural)]
pub enum SnapLayout {
    HalfLeft,
    HalfRight,
    HalfTop,
    HalfBottom,
    TwoThirdsLeft,
    OneThirdRight,
    OneThirdLeft,
    TwoThirdsRight,
    ThreeColumnsLeft,
    ThreeColumnsCenter,
    ThreeColumnsRight,
    Maximize,
    CenterFloating,
    RestoreOriginal,
}

/// Canonical kebab-case name of a layout.
pub open spec fn layout_name(l: SnapLayout) -> Seq<char> {
    match l {
        SnapLayout::HalfLeft => "half-left"@,
        SnapLayout::HalfRight => "half-right"@,
        SnapLayout::HalfTop => "half-top"@,
        SnapLayout::HalfBottom => "half-bottom"@,
        SnapLayout::TwoThirdsLeft => "two-thirds-left"@,
        SnapLayout::OneThirdRight => "one-third-right"@,
        SnapLayout::OneThirdLeft => "one-third-left"@,
        SnapLayout::TwoThirdsRight => "two-thirds-right"@,
        SnapLayout::ThreeColumnsLeft => "three-columns-left"@,
        SnapLayout::ThreeColumnsCenter => "three-columns-center"@,
        SnapLayout::ThreeColumnsRight => "three-columns-right"@,
        SnapLayout::Maximize => "maximize"@,
        SnapLayout::CenterFloating => "center-floating"@,
        SnapLayout::RestoreOriginal => "restore-original"@,
    }
}

/// The layout a normalized name (or alias) denotes.
pub open spec fn layout_of_name(n: Seq<char>) -> Option<SnapLayout> {
    if n == "half-left"@ || n == "left"@ {
        Some(SnapLayout::HalfLeft)
    } else if n == "half-right"@ || n == "right"@ {
        Some(SnapLayout::HalfRight)
    } else if n == "half-top"@ || n == "top"@ {
        Some(SnapLayout::HalfTop)
    } else if n == "half-bottom"@ || n == "bottom"@ {
        Some(SnapLayout::HalfBottom)
    } else if n == "two-thirds-left"@ || n == "2/3-left"@ {
        Some(SnapLayout::TwoThirdsLeft)
    } else if n == "one-third-right"@ || n == "1/3-right"@ {
        Some(SnapLayout::OneThirdRight)
    } else if n == "one-third-left"@ || n == "1/3-left"@ {
        Some(SnapLayout::OneThirdLeft)
    } else if n == "two-thirds-right"@ || n == "2/3-right"@ {
        Some(SnapLayout::TwoThirdsRight)
    } else if n == "three-columns-left"@ || n == "3col-left"@ || n == "three-col-left"@ {
        Some(SnapLayout::ThreeColumnsLeft)
    } else if n == "three-columns-center"@ || n == "3col-center"@ || n == "three-col-center"@ {
        Some(SnapLayout::ThreeColumnsCenter)
    } else if n == "three-columns-right"@ || n == "3col-right"@ || n == "three-col-right"@ {
        Some(SnapLayout::ThreeColumnsRight)
    } else if n == "maximize"@ || n == "max"@ {
        Some(SnapLayout::Maximize)
    } else if n == "center-floating"@ || n == "center"@ || n == "floating-center"@ {
        Some(SnapLayout::CenterFloating)
    } else if n == "restore-original"@ || n == "restore"@ {
        Some(SnapLayout::RestoreOriginal)
    } else {
        None
    }
}

/// Normalization of a layout name: trimmed, ASCII-lower-cased, `_` read as
/// `-`.
pub open spec fn normalize_layout(s: Seq<char>) -> Seq<char> {
    replace_char(ascii_lower(trim(s)), '_', '-')
}

impl SnapLayout {
    pub fn as_str(&self) -> (r: &'static str)
        ensures
            r@ == layout_name(*self),
    {
        match self {
            SnapLayout::HalfLeft => "half-left",
            SnapLayout::HalfRight => "half-right",
            SnapLayout::HalfTop => "half-top",
            SnapLayout::HalfBottom => "half-bottom",
            SnapLayout::TwoThirdsLeft => "two-thirds-left",
            SnapLayout::OneThirdRight => "one-third-right",
            SnapLayout::OneThirdLeft => "one-third-left",
            SnapLayout::TwoThirdsRight => "two-thirds-right",
            SnapLayout::ThreeColumnsLeft => "three-columns-left",
            SnapLayout::ThreeColumnsCenter => "three-columns-center",
            SnapLayout::ThreeColumnsRight => "three-columns-right",
            SnapLayout::Maximize => "maximize",
            SnapLayout::CenterFloating => "center-floating",
            SnapLayout::RestoreOriginal => "restore-original",
        }
    }

    /// Parses a layout name or alias (`left`, `2/3-left`, `3col-center`,
    /// `max`, `center`, `restore`, ...), ignoring case, surrounding
    /// whitespace and the choice of `_` or `-`.
    pub fn parse(s: &str) -> (r: Result<SnapLayout, String>)
        ensures
            match layout_of_name(normalize_layout(s@)) {
                Some(l) => r == Ok::<SnapLayout, String>(l),
                None => r matches Err(e) && e@ == "unknown snap layout: '"@ + normalize_layout(s@)
                    + "'"@,
            },
    {
        let chars = chars_of(s);
        let t = trim_chars(&chars);
        let l = ascii_lower_chars(&t);
        let nv = replace_char_chars(&l, '_', '-');
        let ns = string_of(&nv);
        let n = ns.as_str();
        if str_eq(n, "half-left") || str_eq(n, "left") {
            Ok(SnapLayout::HalfLeft)
        } else if str_eq(n, "half-right") || str_eq(n, "right") {
            Ok(SnapLayout::HalfRight)
        } else if str_eq(n, "half-top") || str_eq(n, "top") {
            Ok(SnapLayout::HalfTop)
        } else if str_eq(n, "half-bottom") || str_eq(n, "bottom") {
            Ok(SnapLayout::HalfBottom)
        } else if str_eq(n, "two-thirds-left") || str_eq(n, "2/3-left") {
            Ok(SnapLayout::TwoThirdsLeft)
        } else if str_eq(n, "one-third-right") || str_eq(n, "1/3-right") {
            Ok(SnapLayout::OneThirdRight)
        } else if str_eq(n, "one-third-left") || str_eq(n, "1/3-left") {
            Ok(SnapLayout::OneThirdLeft)
        } else if str_eq(n, "two-thirds-right") || str_eq(n, "2/3-right") {
            Ok(SnapLayout::TwoThirdsRight)
        } else if str_eq(n, "three-columns-left") || str_eq(n, "3col-left") || str_eq(
            n,
            "three-col-left",
        ) {
            Ok(SnapLayout::ThreeColumnsLeft)
        } else if str_eq(n, "three-columns-center") || str_eq(n, "3col-center") || str_eq(
            n,
            "three-col-center",
        ) {
            Ok(SnapLayout::ThreeColumnsCenter)
        } else if str_eq(n, "three-columns-right") || str_eq(n, "3col-right") || str_eq(
            n,
            "three-col-right",
        ) {
            Ok(SnapLayout::ThreeColumnsRight)
        } else if str_eq(n, "maximize") || str_eq(n, "max") {
            Ok(SnapLayout::Maximize)
        } else if str_eq(n, "center-floating") || str_eq(n, "center") || str_eq(
            n,
            "floating-center",
        ) {
            Ok(SnapLayout::CenterFloating)
        } else if str_eq(n, "restore-original") || str_eq(n, "restore") {
            Ok(SnapLayout::RestoreOriginal)
        } else {
            Err(concat3("unknown snap layout: '", n, "'"))
        }
    }
}

impl std::str::FromStr for SnapLayout {
    type Err = String;

    fn from_str(s: &str) -> (r: Result<Self, Self::Err>)
        ensures
            match layout_of_name(normalize_layout(s@)) {
                Some(l) => r == Ok::<SnapLayout, String>(l),
                None => r matches Err(e) && e@ == "unknown snap layout: '"@ + normalize_layout(s@)
                    + "'"@,
            },
    {
        SnapLayout::parse(s)
    }
}

/// Daemon usage statistics; each table lists names with their counts,
/// without repeated names.
#[derive(Debug, Clone, PartialEq, Eq)]
pub struct UsageStats {
    pub profile_usage: Vec<(String, u64)>,
    pub action_counts: Vec<(String, u64)>,
    pub conflict_hits: Vec<(String, u64)>,
    pub total_switches: u64,
    pub total_actions: u64,
    pub uptime_secs: u64,
}

impl Default for UsageStats {
    fn default() -> (r: UsageStats)
        ensures
            r.profile_usage@.len() == 0,
            r.action_counts@.len() == 0,
            r.conflict_hits@.len() == 0,
            r.total_switches == 0,
            r.total_actions == 0,
            r.uptime_secs == 0,
    {
        UsageStats {
            profile_usage: Vec::new(),
            action_counts: Vec::new(),
            conflict_hits: Vec::new(),
            total_switches: 0,
            total_actions: 0,
            uptime_secs: 0,
        }
    }
}

/// Conflict resolution policy named on the wire.
#[derive(Debug, Clone, Copy, PartialEq, Eq, Hash, Structural)]
pub enum ConflictPolicy {
    Strict,
    Force,
    Smart,
}

impl Default for ConflictPolicy {
    fn default() -> (r: ConflictPolicy)
        ensures
            r == ConflictPolicy::Strict,
    {
        ConflictPolicy::Strict
    }
}

impl ConflictPolicy {
    pub fn as_str(&self) -> (r: &'static str)
        ensures
            r@ == (match *self {
                ConflictPolicy::Strict => "strict"@,
                ConflictPolicy::Force => "force"@,
                ConflictPolicy::Smart => "smart"@,
            }),
    {
        match self {
            ConflictPolicy::Strict => "strict",
            ConflictPolicy::Force => "force",
            ConflictPolicy::Smart => "smart",
        }
    }
}

/// Runtime policy applied to newly created ordinary windows.
#[derive(Debug, Clone, Copy, PartialEq, Eq, Hash, Structural)]
pub enum WindowPolicy {
    Omarchy,
    Tiled,
    Floating,
    FollowProfile,
}

impl Default for WindowPolicy {
    fn default() -> (r: WindowPolicy)
        ensures
            r == WindowPolicy::Omarchy,
    {
        WindowPolicy::Omarchy
    }
}

pub open spec fn window_policy_name(p: WindowPolicy) -> Seq<char> {
    match p {
        WindowPolicy::Omarchy => "omarchy"@,
        WindowPolicy::Tiled => "tiled"@,
        WindowPolicy::Floating => "floating"@,
        WindowPolicy::FollowProfile => "follow-profile"@,
    }
}

impl WindowPolicy {
    pub fn as_str(&self) -> (r: &'static str)
        ensures
            r@ == window_policy_name(*self),
    {
        match self {
            WindowPolicy::Omarchy => "omarchy",
            WindowPolicy::Tiled => "tiled",
            WindowPolicy::Floating => "floating",
            WindowPolicy::FollowProfile => "follow-profile",
        }
    }
}

/// Structured daemon event pushed on a subscribed connection.
#[derive(Debug, Clone, PartialEq, Eq)]
pub enum Event {
    SwitchSucceeded { profile: String, duration_us: u128, applied: usize, skipped: usize, forced: usize },
    SwitchFailed { profile: String, error: String },
    Restored { duration_us: u128, unbound: usize, rebound: usize },
    WindowPolicyChanged { policy: WindowPolicy },
    PresetsReloaded { count: usize },
}

/// Profile and shortcut optimization recommendation.
#[derive(Debug, Clone, PartialEq, Eq)]
pub struct Recommendation {
    pub id: String,
    pub title: String,
    pub message: String,
    pub suggestion_type: String,
    pub suggested_action: Option<String>,
}

/// Local, opt-in permission scopes supported by script plugins.
#[derive(Debug, Clone, Copy, PartialEq, Eq, Hash, Structural)]
pub enum PluginPermissionScope {
    NoneRequired,
    HyprlandDispatch,
    Shell,
    Clipboard,
    Notification,
}

/// A registered script-backed action plugin.
#[derive(Debug, Clone, PartialEq, Eq)]
pub struct PluginInfo {
    pub id: String,
    pub version: String,
    pub description: String,
    pub executable: String,
    pub timeout_ms: u64,
    pub permissions: Vec<PluginPermissionScope>,
    pub enabled: bool,
    pub error: Option<String>,
}

/// One diagnostic check performed by doctor.
#[derive(Debug, Clone, PartialEq, Eq)]
pub struct DiagnosticCheck {
    pub id: String,
    pub label: String,
    pub status: DiagnosticStatus,
    pub message: String,
    pub remediation: Option<String>,
}

#[derive(Debug, Clone, Copy, PartialEq, Eq, Hash, Structural)]
pub enum DiagnosticStatus {
    Pass,
    Warning,
    Error,
}

/// Full doctor report.
#[derive(Debug, Clone, PartialEq, Eq)]
pub struct DoctorReport {
    pub healthy: bool,
    pub backend: String,
    pub checks: Vec<DiagnosticCheck>,
    pub generated_unix_ms: Option<u128>,
}

/// On-demand metrics snapshot.
#[derive(Debug, Clone, Copy, PartialEq, Eq, Structural)]
pub struct MetricsReport {
    pub uptime_secs: u64,
    pub total_switches: u64,
    pub failed_switches: u64,
    pub average_switch_duration_us: u128,
    pub max_switch_duration_us: u128,
    pub skipped_conflicts: usize,
    pub forced_overrides: usize,
    pub active_connections: usize,
    pub plugins_loaded: usize,
    pub plugins_failed: usize,
}

#[derive(Debug, Clone, Copy, PartialEq, Eq, Hash, Structural)]
pub enum MetricsFormat {
    Json,
    Text,
}

/// Request sent from a client to the daemon.
#[derive(Debug, Clone, PartialEq, Eq)]
pub enum Request {
    Status,
    ListProfiles,
    Switch { profile: String, force: bool },
    Cycle,
    Restore,
    Shutdown,
    SwitchWithPolicy { profile: String, policy: ConflictPolicy },
    WindowMode { policy: Option<WindowPolicy> },
    History { limit: Option<usize> },
    ReloadPresets,
    UpsertProfile { toml: String },
    GetProfile { name: String },
    Subscribe { filters: Vec<String> },
    ApplyLayout { layout: SnapLayout, preview: bool },
    MoveWindowToMonitor { direction: String },
    SaveCurrentAsProfile { name: String, description: Option<String> },
    SwapWindow { direction: String },
    CreateProfile { name: String, description: Option<String>, copy_from: Option<String> },
    UpdateBinding { profile: String, key_combo: String, action: String, description: Option<String> },
    RemoveBinding { profile: String, key_combo: String },
    SaveProfile { profile: String },
    DeleteProfile { profile: String },
    GetStats,
    GetRecommendations,
    ExportStats { path: Option<String> },
    Doctor { export: Option<String> },
    Metrics { format: MetricsFormat },
    PluginReload,
    PluginList,
    PluginValidate { id: Option<String> },
    PluginRun { id: String },
}

/// Status information returned with a Status response.
#[derive(Debug, Clone, PartialEq, Eq)]
pub struct StatusInfo {
    pub active_profile: String,
    pub overlays_count: usize,
    pub uptime_secs: u64,
    pub version: String,
    pub window_policy: WindowPolicy,
    pub skipped_conflicts: usize,
    pub forced_overrides: usize,
    pub last_switch_duration_us: u128,
    pub last_switch_succeeded: bool,
}

impl StatusInfo {
    pub fn new(active_profile: &str, overlays_count: usize, uptime_secs: u64, version: &str) -> (r: StatusInfo)
        ensures
            r.active_profile@ == active_profile@,
            r.overlays_count == overlays_count,
            r.uptime_secs == uptime_secs,
            r.version@ == version@,
            r.window_policy == WindowPolicy::Omarchy,
            r.skipped_conflicts == 0,
            r.forced_overrides == 0,
            r.last_switch_duration_us == 0,
            r.last_switch_succeeded,
    {
        StatusInfo {
            active_profile: owned(active_profile),
            overlays_count,
            uptime_secs,
            version: owned(version),
            window_policy: WindowPolicy::Omarchy,
            skipped_conflicts: 0,
            forced_overrides: 0,
            last_switch_duration_us: 0,
            last_switch_succeeded: true,
        }
    }
}

/// One in-memory switch history record.
#[derive(Debug, Clone, PartialEq, Eq)]
pub struct HistoryEntry {
    pub sequence: u64,
    pub unix_ms: u128,
    pub profile: String,
    pub succeeded: bool,
    pub duration_us: u128,
    pub applied: usize,
    pub skipped: usize,
    pub forced: usize,
    pub error: Option<String>,
}

/// A single user-facing keybinding row for cheat-sheet clients.
#[derive(Debug, Clone, PartialEq, Eq)]
pub struct BindingInfo {
    pub key_combo: String,
    pub action: String,
    pub description: Option<String>,
}

/// Structured result of a snap or preview operation.
#[derive(Debug, Clone, PartialEq, Eq)]
pub struct LayoutFeedback {
    pub layout: String,
    pub preview: bool,
    pub monitor: String,
    pub from: Option<[i32; 4]>,
    pub to: [i32; 4],
    pub message: Option<String>,
}

/// The details of one profile returned by a profile query.
#[derive(Debug, Clone, PartialEq, Eq)]
pub struct ProfileDetails {
    pub name: String,
    pub description: String,
    pub window_policy: Option<crate::profile_metadata::WindowPolicyKind>,
    pub bindings: Vec<BindingInfo>,
}

/// The outcome of validating the loaded plugins.
#[derive(Debug, Clone, PartialEq, Eq)]
pub struct PluginValidation {
    pub valid: bool,
    pub plugins: Vec<PluginInfo>,
    pub failures: Vec<String>,
}

/// The structured payload a successful response may carry.
#[derive(Debug, Clone, PartialEq, Eq)]
pub enum ResponseData {
    Status(StatusInfo),
    Profiles(Vec<crate::state::ProfileInfo>),
    Policy(WindowPolicy),
    History(Vec<HistoryEntry>),
    Profile(ProfileDetails),
    Layout(LayoutFeedback),
    Stats(UsageStats),
    Recommendations(Vec<Recommendation>),
    Doctor(DoctorReport),
    Metrics(MetricsReport),
    Plugins(Vec<PluginInfo>),
    Validation(PluginValidation),
}

/// Response sent from the daemon to a client.
#[derive(Debug, Clone, PartialEq, Eq)]
pub enum Response {
    Success { message: String, data: Option<ResponseData> },
    Error { code: String, message: String },
    Event { event: Event },
}

impl Response {
    /// A success carrying only `message`.
    pub fn ok(message: &str) -> (r: Response)
        ensures
            r matches Response::Success { message: m, data } && m@ == message@ && data is None,
    {
        Response::Success { message: owned(message), data: None }
    }

    /// A success carrying `message` and `data`.
    pub fn ok_with_data(message: &str, data: ResponseData) -> (r: Response)
        ensures
            r matches Response::Success { message: m, data: d } && m@ == message@ && d == Some(data),
    {
        Response::Success { message: owned(message), data: Some(data) }
    }

    /// An error with machine-readable `code` and `message`.
    pub fn err(code: &str, message: &str) -> (r: Response)
        ensures
            r matches Response::Error { code: c, message: m } && c@ == code@ && m@ == message@,
    {
        Response::Error { code: owned(code), message: owned(message) }
    }
}

} // verus!
