//! The command-line client: its commands, the request each one sends, and
//! the text it prints for each answer.
use vstd::prelude::*;

use crate::daemon::DaemonConfig;
use crate::protocol::{
    layout_name, Recommendation, Request, Response, SnapLayout, StatusInfo, UsageStats,
    WindowPolicy, window_policy_name,
};
use crate::state::ProfileInfo;
use crate::text::{
    chars_of, concat, concat3, decimal, owned, push_char, push_decimal, push_str, replace_char,
    replace_char_chars, spec_to_lowercase, str_eq, string_of, to_lowercase, trim, trim_chars,
};

verus! {

// ---------------------------------------------------------------------------
// Commands
// ---------------------------------------------------------------------------

/// The command line: an optional socket path and a command.
#[derive(Debug)]
pub struct Cli {
    pub socket: Option<String>,
    pub command: Command,
}

impl Cli {
    /// The daemon socket: the one given, else the value of
    /// `AETHERSHIFT_SOCKET` when set, else `default_path`.
    pub fn resolved_socket_path_with(&self, env_value: Option<&str>, default_path: &str) -> (r: String)
        ensures
            r@ == match self.socket {
                Some(p) => p@,
                None => match env_value {
                    Some(v) => v@,
                    None => default_path@,
                },
            },
    {
        match &self.socket {
            Some(p) => p.clone(),
            None => match env_value {
                Some(v) => owned(v),
                None => owned(default_path),
            },
        }
    }
}

/// The client's commands.
#[derive(Debug)]
pub enum Command {
    Status { json: bool },
    Bindings { profile: Option<String>, action: Option<String>, json: bool },
    List { json: bool },
    Switch { profile: String, force: bool },
    Cycle,
    Restore,
    WindowMode(WindowModeArgs),
    Snap { layout: String, preview: bool },
    Monitor { direction: String },
    Profile(ProfileCommand),
    Stats { json: bool, export: Option<String> },
    Recommend { json: bool },
    Tui,
    History { limit: usize, json: bool },
    ReloadPresets,
    Shutdown,
    Daemon(DaemonArgs),
}

/// Profile management commands.
#[derive(Debug)]
pub enum ProfileCommand {
    Load { path: String },
    SaveCurrent { name: String, desc: Option<String> },
    Create { name: String, desc: Option<String>, copy_from: Option<String> },
    Bind { profile: String, key: String, action: String, desc: Option<String> },
    Unbind { profile: String, key: String },
    Save { profile: String },
    Delete { profile: String },
}

/// Options of the daemon command.
#[derive(Debug)]
pub struct DaemonArgs {
    pub preset_dir: String,
    pub verbose: u8,
    pub no_notify: bool,
}

/// Options of the window-mode command.
#[derive(Debug, Clone, PartialEq, Eq)]
pub struct WindowModeArgs {
    pub action: Option<WindowModeAction>,
    pub json: bool,
}

/// Window-mode subcommands.
#[derive(Debug, Clone, PartialEq, Eq)]
pub enum WindowModeAction {
    SetPolicy { policy: String, json: bool },
    Status { json: bool },
}

impl WindowModeArgs {
    /// Whether JSON output was asked for, on the command or its subcommand.
    pub fn is_json(&self) -> (r: bool)
        ensures
            r == (self.json || match self.action {
                Some(WindowModeAction::SetPolicy { json, .. }) => json,
                Some(WindowModeAction::Status { json }) => json,
                None => false,
            }),
    {
        self.json || match &self.action {
            Some(WindowModeAction::SetPolicy { json, .. }) => *json,
            Some(WindowModeAction::Status { json }) => *json,
            None => false,
        }
    }
}

// ---------------------------------------------------------------------------
// Window policies
// ---------------------------------------------------------------------------

/// A policy name as the parser compares it: trimmed, lower-cased, with `_`
/// read as `-`.
pub open spec fn normalize_policy(s: Seq<char>) -> Seq<char> {
    replace_char(spec_to_lowercase(trim(s)), '_', '-')
}

/// The policy a normalized name denotes.
pub open spec fn policy_of_name(n: Seq<char>) -> Option<WindowPolicy> {
    if n == "omarchy"@ {
        Some(WindowPolicy::Omarchy)
    } else if n == "tiled"@ {
        Some(WindowPolicy::Tiled)
    } else if n == "floating"@ {
        Some(WindowPolicy::Floating)
    } else if n == "follow-profile"@ || n == "follow"@ {
        Some(WindowPolicy::FollowProfile)
    } else {
        None
    }
}

/// Parses a window policy name (`omarchy`, `tiled`, `floating`,
/// `follow-profile` or `follow`), ignoring case, surrounding whitespace and
/// the choice of `_` or `-`.
pub fn parse_window_policy(s: &str) -> (r: Result<WindowPolicy, String>)
    ensures
        match policy_of_name(normalize_policy(s@)) {
            Some(p) => r == Ok::<WindowPolicy, String>(p),
            None => r matches Err(e) && e@ == "Invalid window policy: '"@ + s@
                + "'. Available policies: omarchy, tiled, floating, follow-profile"@,
        },
{
    let chars = chars_of(s);
    let t = trim_chars(&chars);
    let ts = string_of(&t);
    let lower = to_lowercase(ts.as_str());
    let lc = chars_of(lower.as_str());
    let nv = replace_char_chars(&lc, '_', '-');
    let ns = string_of(&nv);
    let n = ns.as_str();
    if str_eq(n, "omarchy") {
        Ok(WindowPolicy::Omarchy)
    } else if str_eq(n, "tiled") {
        Ok(WindowPolicy::Tiled)
    } else if str_eq(n, "floating") {
        Ok(WindowPolicy::Floating)
    } else if str_eq(n, "follow-profile") || str_eq(n, "follow") {
        Ok(WindowPolicy::FollowProfile)
    } else {
        let mut e = concat3("Invalid window policy: '", s, "'");
        push_str(&mut e, ". Available policies: omarchy, tiled, floating, follow-profile");
        proof {
            reveal_strlit("'");
            reveal_strlit(". Available policies: omarchy, tiled, floating, follow-profile");
            reveal_strlit("'. Available policies: omarchy, tiled, floating, follow-profile");
        }
        Err(e)
    }
}

// ---------------------------------------------------------------------------
// Durations and answers as text
// ---------------------------------------------------------------------------

/// A duration in seconds as `Dd Hh Mm Ss`, leaving out the leading zero
/// units (`Ss` at least).
pub open spec fn duration_text(secs: u64) -> Seq<char> {
    let d = secs / 86400;
    let h = (secs % 86400) / 3600;
    let m = (secs % 3600) / 60;
    let s = secs % 60;
    if d > 0 {
        decimal(d as nat) + "d "@ + decimal(h as nat) + "h "@ + decimal(m as nat) + "m "@
            + decimal(s as nat) + "s"@
    } else if h > 0 {
        decimal(h as nat) + "h "@ + decimal(m as nat) + "m "@ + decimal(s as nat) + "s"@
    } else if m > 0 {
        decimal(m as nat) + "m "@ + decimal(s as nat) + "s"@
    } else {
        decimal(s as nat) + "s"@
    }
}

/// The text of a duration in seconds.
pub fn format_duration(secs: u64) -> (r: String)
    ensures
        r@ == duration_text(secs),
{
    let days = secs / 86400;
    let hours = (secs % 86400) / 3600;
    let mins = (secs % 3600) / 60;
    let s = secs % 60;
    let mut out = String::new();
    if days > 0 {
        push_decimal(&mut out, days as u128);
        push_str(&mut out, "d ");
        push_decimal(&mut out, hours as u128);
        push_str(&mut out, "h ");
        push_decimal(&mut out, mins as u128);
        push_str(&mut out, "m ");
    } else if hours > 0 {
        push_decimal(&mut out, hours as u128);
        push_str(&mut out, "h ");
        push_decimal(&mut out, mins as u128);
        push_str(&mut out, "m ");
    } else if mins > 0 {
        push_decimal(&mut out, mins as u128);
        push_str(&mut out, "m ");
    }
    push_decimal(&mut out, s as u128);
    push_str(&mut out, "s");
    proof {
        assert(Seq::<char>::empty() + decimal(s as nat) =~= decimal(s as nat));
    }
    assert(out@ =~= duration_text(secs));
    out
}

/// The status report's lines.
pub open spec fn status_text(st: StatusInfo) -> Seq<char> {
    "AetherShift Daemon Status\n"@ + "========================\n"@ + "  Active Profile:   "@
        + st.active_profile@ + "\n"@ + "  Active Overlays:  "@ + decimal(st.overlays_count as nat)
        + "\n"@ + "  Window Policy:    "@ + window_policy_name(st.window_policy) + "\n"@
        + "  Daemon Uptime:    "@ + duration_text(st.uptime_secs) + "\n"@
        + "  Daemon Version:   v"@ + st.version@ + "\n"@
}

/// The status report printed for a status answer.
pub fn format_status_text(status: &StatusInfo) -> (r: String)
    ensures
        r@ == status_text(*status),
{
    let mut s = owned("AetherShift Daemon Status\n");
    push_str(&mut s, "========================\n");
    push_str(&mut s, "  Active Profile:   ");
    push_str(&mut s, status.active_profile.as_str());
    push_str(&mut s, "\n");
    push_str(&mut s, "  Active Overlays:  ");
    push_decimal(&mut s, status.overlays_count as u128);
    push_str(&mut s, "\n");
    push_str(&mut s, "  Window Policy:    ");
    push_str(&mut s, status.window_policy.as_str());
    push_str(&mut s, "\n");
    push_str(&mut s, "  Daemon Uptime:    ");
    let d = format_duration(status.uptime_secs);
    push_str(&mut s, d.as_str());
    push_str(&mut s, "\n");
    push_str(&mut s, "  Daemon Version:   v");
    push_str(&mut s, status.version.as_str());
    push_str(&mut s, "\n");
    s
}

/// `Daemon returned error [CODE]: MESSAGE`.
pub open spec fn daemon_error_text(code: Seq<char>, message: Seq<char>) -> Seq<char> {
    "Daemon returned error ["@ + code + "]: "@ + message
}

/// What the client prints for an answer it shows as a plain message: the
/// message of a success, nothing for an event, or the error it fails with.
pub fn simple_response_text(resp: &Response) -> (r: Result<Option<String>, String>)
    ensures
        match *resp {
            Response::Success { message, .. } => r matches Ok(Some(m)) && m@ == message@,
            Response::Error { code, message } => r matches Err(e) && e@ == daemon_error_text(code@, message@),
            Response::Event { .. } => r matches Ok(None),
        },
{
    match resp {
        Response::Success { message, .. } => Ok(Some(message.clone())),
        Response::Error { code, message } => Err(daemon_error_text_of(code.as_str(), message.as_str())),
        Response::Event { .. } => Ok(None),
    }
}

/// The error text for a daemon error.
pub fn daemon_error_text_of(code: &str, message: &str) -> (r: String)
    ensures
        r@ == daemon_error_text(code@, message@),
{
    let mut e = concat3("Daemon returned error [", code, "]: ");
    push_str(&mut e, message);
    e
}

// ---------------------------------------------------------------------------
// Tables
// ---------------------------------------------------------------------------

/// `s` padded with spaces on the right to `width` characters.
pub open spec fn pad(s: Seq<char>, width: nat) -> Seq<char> {
    if s.len() < width {
        s + Seq::new((width - s.len()) as nat, |i: int| ' ')
    } else {
        s
    }
}

/// Appends `t` padded to `width` characters.
pub fn push_padded(s: &mut String, t: &str, width: usize)
    ensures
        final(s)@ == old(s)@ + pad(t@, width as nat),
{
    push_str(s, t);
    let n = chars_of(t).len();
    let mut k: usize = n;
    let ghost base = old(s)@ + t@;
    while k < width
        invariant
            n == t@.len(),
            n <= k <= width || (k == n && n >= width),
            s@ == base + Seq::new((k - n) as nat, |i: int| ' '),
        decreases width - k,
    {
        push_char(s, ' ');
        assert(s@ =~= base + Seq::new((k + 1 - n) as nat, |i: int| ' '));
        k = k + 1;
    }
    if n < width {
        assert(s@ =~= old(s)@ + pad(t@, width as nat));
    } else {
        assert(s@ =~= old(s)@ + pad(t@, width as nat));
    }
}

/// The line of one profile in the profile table.
pub open spec fn profile_row(p: ProfileInfo) -> Seq<char> {
    pad(p.name@, 15) + " "@ + pad(decimal(p.bindings_count as nat), 10) + " "@ + pad(
        if p.is_active {
            "* active"@
        } else {
            ""@
        },
        10,
    ) + " "@ + p.description@ + "\n"@
}

/// The rows of the profile table, in order.
pub open spec fn profile_rows(ps: Seq<ProfileInfo>) -> Seq<char>
    decreases ps.len(),
{
    if ps.len() == 0 {
        Seq::empty()
    } else {
        profile_rows(ps.drop_last()) + profile_row(ps.last())
    }
}

/// The head of the profile table.
pub open spec fn profile_table_head() -> Seq<char> {
    "Available Profiles:\n"@ + pad("PROFILE"@, 15) + " "@ + pad("BINDINGS"@, 10) + " "@ + pad(
        "STATUS"@,
        10,
    ) + " "@ + "DESCRIPTION"@ + "\n"@ + Seq::new(15, |i: int| '-') + " "@ + Seq::new(10, |i: int| '-')
        + " "@ + Seq::new(10, |i: int| '-') + " "@ + Seq::new(35, |i: int| '-') + "\n"@
}

/// The profile table printed for a profile list answer.
pub fn format_profile_list(profiles: &Vec<ProfileInfo>) -> (r: String)
    ensures
        r@ == profile_table_head() + profile_rows(profiles@),
{
    let mut s = owned("Available Profiles:\n");
    push_padded(&mut s, "PROFILE", 15);
    push_str(&mut s, " ");
    push_padded(&mut s, "BINDINGS", 10);
    push_str(&mut s, " ");
    push_padded(&mut s, "STATUS", 10);
    push_str(&mut s, " ");
    push_str(&mut s, "DESCRIPTION");
    push_str(&mut s, "\n");
    push_dashes(&mut s, 15);
    push_str(&mut s, " ");
    push_dashes(&mut s, 10);
    push_str(&mut s, " ");
    push_dashes(&mut s, 10);
    push_str(&mut s, " ");
    push_dashes(&mut s, 35);
    push_str(&mut s, "\n");
    assert(s@ =~= profile_table_head() + profile_rows(profiles@.take(0)));
    let mut i: usize = 0;
    while i < profiles.len()
        invariant
            i <= profiles@.len(),
            s@ == profile_table_head() + profile_rows(profiles@.take(i as int)),
        decreases profiles@.len() - i,
    {
        push_profile_row(&mut s, &profiles[i]);
        proof {
            assert(profiles@.take(i + 1).drop_last() =~= profiles@.take(i as int));
            assert(profile_rows(profiles@.take(i + 1)) == profile_rows(profiles@.take(i as int)) + profile_row(profiles@[i as int]));
        }
        i = i + 1;
    }
    assert(profiles@.take(profiles@.len() as int) =~= profiles@);
    s
}

/// Appends `n` dashes.
pub fn push_dashes(s: &mut String, n: usize)
    ensures
        final(s)@ == old(s)@ + Seq::new(n as nat, |i: int| '-'),
{
    let ghost base = old(s)@;
    let mut k: usize = 0;
    while k < n
        invariant
            k <= n,
            s@ == base + Seq::new(k as nat, |i: int| '-'),
        decreases n - k,
    {
        push_char(s, '-');
        assert(s@ =~= base + Seq::new((k + 1) as nat, |i: int| '-'));
        k = k + 1;
    }
}

/// Appends the table line of profile `p`.
pub fn push_profile_row(s: &mut String, p: &ProfileInfo)
    ensures
        final(s)@ == old(s)@ + profile_row(*p),
{
    push_padded(s, p.name.as_str(), 15);
    push_str(s, " ");
    let count = crate::text::decimal_string(p.bindings_count as u128);
    push_padded(s, count.as_str(), 10);
    push_str(s, " ");
    let status: &str = if p.is_active {
        "* active"
    } else {
        ""
    };
    push_padded(s, status, 10);
    push_str(s, " ");
    push_str(s, p.description.as_str());
    push_str(s, "\n");
    proof {
        reveal_strlit("");
    }
    assert(final(s)@ =~= old(s)@ + profile_row(*p));
}

// ---------------------------------------------------------------------------
// Statistics and recommendations
// ---------------------------------------------------------------------------

/// Whether named counts are ordered by non-increasing count.
pub open spec fn by_count_desc(s: Seq<(String, u64)>) -> bool {
    forall|i: int, j: int| 0 <= i < j < s.len() ==> (#[trigger] s[i]).1 >= (#[trigger] s[j]).1
}

/// The named counts of `v` ordered by non-increasing count; equal counts
/// keep their order.
pub fn rank_by_count(v: &Vec<(String, u64)>) -> (r: Vec<(String, u64)>)
    ensures
        by_count_desc(r@),
        r@.to_multiset() == v@.to_multiset(),
        r@.len() == v@.len(),
{
    let mut out: Vec<(String, u64)> = Vec::new();
    let mut i: usize = 0;
    assert(out@ =~= v@.take(0));
    while i < v.len()
        invariant
            i <= v@.len(),
            by_count_desc(out@),
            out@.to_multiset() == v@.take(i as int).to_multiset(),
            out@.len() == i,
        decreases v@.len() - i,
    {
        let x = (v[i].0.clone(), v[i].1);
        assert(x == v@[i as int]);
        let mut pos: usize = 0;
        while pos < out.len() && out[pos].1 >= x.1
            invariant
                pos <= out@.len(),
                forall|k: int| 0 <= k < pos ==> (#[trigger] out@[k]).1 >= x.1,
            decreases out@.len() - pos,
        {
            pos = pos + 1;
        }
        let ghost before = out@;
        out.insert(pos, x);
        proof {
            assert(out@ == before.insert(pos as int, x));
            assert forall|a: int, b: int| 0 <= a < b < out@.len() implies (#[trigger] out@[a]).1 >= (#[trigger] out@[b]).1 by {
                if pos < before.len() {
                    assert(before[pos as int].1 < x.1);
                }
                if b < pos {
                    assert(out@[a] == before[a] && out@[b] == before[b]);
                } else if b == pos {
                    assert(out@[a] == before[a]);
                } else if a < pos {
                    assert(out@[a] == before[a] && out@[b] == before[b - 1]);
                    assert(before[b - 1].1 <= before[pos as int].1);
                } else if a == pos {
                    assert(out@[b] == before[b - 1]);
                    assert(before[b - 1].1 <= before[pos as int].1);
                } else {
                    assert(out@[a] == before[a - 1] && out@[b] == before[b - 1]);
                }
            }
            assert(v@.take(i + 1) =~= v@.take(i as int).push(v@[i as int]));
            vstd::seq_lib::to_multiset_insert(before, pos as int, x);
            vstd::seq_lib::to_multiset_build(v@.take(i as int), v@[i as int]);
        }
        i = i + 1;
    }
    assert(v@.take(v@.len() as int) =~= v@);
    out
}

/// One line of the top actions.
pub open spec fn action_row(a: (String, u64)) -> Seq<char> {
    "  "@ + pad(a.0@, 25) + " "@ + decimal(a.1 as nat) + " times\n"@
}

/// One line of the profile durations.
pub open spec fn usage_row(a: (String, u64)) -> Seq<char> {
    "  "@ + pad(a.0@, 20) + " "@ + duration_text(a.1) + "\n"@
}

/// The lines of `rows`, each made by `line`.
pub open spec fn lines_of(rows: Seq<(String, u64)>, line: spec_fn((String, u64)) -> Seq<char>) -> Seq<char>
    decreases rows.len(),
{
    if rows.len() == 0 {
        Seq::empty()
    } else {
        lines_of(rows.drop_last(), line) + line(rows.last())
    }
}

/// The statistics report, with the actions in the order `ranked`.
pub open spec fn stats_text(st: UsageStats, ranked: Seq<(String, u64)>) -> Seq<char> {
    "AetherShift Usage Statistics\n"@ + "===========================\n"@
        + "  Total Profile Switches:  "@ + decimal(st.total_switches as nat) + "\n"@
        + "  Total Actions Executed:  "@ + decimal(st.total_actions as nat) + "\n"@
        + "  Daemon Uptime:           "@ + duration_text(st.uptime_secs) + "\n"@ + (if st.action_counts@.len()
        > 0 {
        "\n"@ + "Top Actions Executed:\n"@ + lines_of(
            ranked.take(if ranked.len() < 10 { ranked.len() as int } else { 10 }),
            |a: (String, u64)| action_row(a),
        )
    } else {
        Seq::empty()
    }) + (if st.profile_usage@.len() > 0 {
        "\n"@ + "Profile Usage Durations:\n"@ + lines_of(st.profile_usage@, |a: (String, u64)| usage_row(a))
    } else {
        Seq::empty()
    })
}

fn push_action_row(s: &mut String, a: &(String, u64))
    ensures
        final(s)@ == old(s)@ + action_row(*a),
{
    push_str(s, "  ");
    push_padded(s, a.0.as_str(), 25);
    push_str(s, " ");
    push_decimal(s, a.1 as u128);
    push_str(s, " times\n");
    assert(final(s)@ =~= old(s)@ + action_row(*a));
}

fn push_usage_row(s: &mut String, a: &(String, u64))
    ensures
        final(s)@ == old(s)@ + usage_row(*a),
{
    push_str(s, "  ");
    push_padded(s, a.0.as_str(), 20);
    push_str(s, " ");
    let d = format_duration(a.1);
    push_str(s, d.as_str());
    push_str(s, "\n");
    assert(final(s)@ =~= old(s)@ + usage_row(*a));
}

/// The statistics report printed for a statistics answer: the totals, the
/// ten most used actions and the time spent in each profile.
pub fn format_stats_text(st: &UsageStats) -> (r: String)
    ensures
        exists|ranked: Seq<(String, u64)>|
            by_count_desc(ranked) && ranked.to_multiset() == st.action_counts@.to_multiset() && r@
                == #[trigger] stats_text(*st, ranked),
{
    let mut s = owned("AetherShift Usage Statistics\n");
    push_str(&mut s, "===========================\n");
    push_str(&mut s, "  Total Profile Switches:  ");
    push_decimal(&mut s, st.total_switches as u128);
    push_str(&mut s, "\n");
    push_str(&mut s, "  Total Actions Executed:  ");
    push_decimal(&mut s, st.total_actions as u128);
    push_str(&mut s, "\n");
    push_str(&mut s, "  Daemon Uptime:           ");
    let d = format_duration(st.uptime_secs);
    push_str(&mut s, d.as_str());
    push_str(&mut s, "\n");
    let ghost head = s@;
    let ranked = rank_by_count(&st.action_counts);
    let top: usize = if ranked.len() < 10 {
        ranked.len()
    } else {
        10
    };
    if st.action_counts.len() > 0 {
        push_str(&mut s, "\n");
        push_str(&mut s, "Top Actions Executed:\n");
        let ghost h2 = s@;
        let mut i: usize = 0;
        while i < top
            invariant
                i <= top,
                top <= ranked@.len(),
                s@ == h2 + lines_of(ranked@.take(i as int), |a: (String, u64)| action_row(a)),
            decreases top - i,
        {
            push_action_row(&mut s, &ranked[i]);
            assert(ranked@.take(i + 1).drop_last() =~= ranked@.take(i as int));
            i = i + 1;
        }
    }
    let ghost mid = s@;
    if st.profile_usage.len() > 0 {
        push_str(&mut s, "\n");
        push_str(&mut s, "Profile Usage Durations:\n");
        let ghost h3 = s@;
        let mut k: usize = 0;
        while k < st.profile_usage.len()
            invariant
                k <= st.profile_usage@.len(),
                s@ == h3 + lines_of(st.profile_usage@.take(k as int), |a: (String, u64)| usage_row(a)),
            decreases st.profile_usage@.len() - k,
        {
            push_usage_row(&mut s, &st.profile_usage[k]);
            assert(st.profile_usage@.take(k + 1).drop_last() =~= st.profile_usage@.take(k as int));
            k = k + 1;
        }
        assert(st.profile_usage@.take(k as int) =~= st.profile_usage@);
    }
    assert(s@ =~= stats_text(*st, ranked@));
    s
}

/// One recommendation as printed, numbered `n`.
pub open spec fn rec_block(n: nat, r: Recommendation) -> Seq<char> {
    decimal(n) + ". ["@ + r.suggestion_type@ + "] "@ + r.title@ + "\n"@ + "   "@ + r.message@ + "\n"@
        + (match r.suggested_action {
        Some(a) => "   Tip: Run `aethershift profile bind <profile> <key> "@ + a@ + "`\n"@,
        None => Seq::empty(),
    }) + "\n"@
}

/// The recommendations as printed, numbered from 1.
pub open spec fn rec_blocks(rs: Seq<Recommendation>) -> Seq<char>
    decreases rs.len(),
{
    if rs.len() == 0 {
        Seq::empty()
    } else {
        rec_blocks(rs.drop_last()) + rec_block(rs.len(), rs.last())
    }
}

/// The recommendations report.
pub open spec fn recommendations_text(rs: Seq<Recommendation>) -> Seq<char> {
    if rs.len() == 0 {
        "No recommendations at this time. Keep using AetherShift to generate personalized insights!\n"@
    } else {
        "Personalized Ergonomic Recommendations\n"@ + "=====================================\n"@
            + rec_blocks(rs)
    }
}

fn push_rec_block(s: &mut String, n: usize, r: &Recommendation)
    ensures
        final(s)@ == old(s)@ + rec_block(n as nat, *r),
{
    push_decimal(s, n as u128);
    push_str(s, ". [");
    push_str(s, r.suggestion_type.as_str());
    push_str(s, "] ");
    push_str(s, r.title.as_str());
    push_str(s, "\n");
    push_str(s, "   ");
    push_str(s, r.message.as_str());
    push_str(s, "\n");
    let ghost mid = s@;
    match &r.suggested_action {
        Some(a) => {
            push_str(s, "   Tip: Run `aethershift profile bind <profile> <key> ");
            push_str(s, a.as_str());
            push_str(s, "`\n");
        },
        None => {},
    }
    push_str(s, "\n");
    assert(final(s)@ =~= old(s)@ + rec_block(n as nat, *r));
}

/// The recommendations report printed for a recommendations answer.
pub fn format_recommendations_text(recs: &Vec<Recommendation>) -> (r: String)
    ensures
        r@ == recommendations_text(recs@),
{
    if recs.len() == 0 {
        return owned(
            "No recommendations at this time. Keep using AetherShift to generate personalized insights!\n",
        );
    }
    let mut s = owned("Personalized Ergonomic Recommendations\n");
    push_str(&mut s, "=====================================\n");
    let ghost head = s@;
    let mut i: usize = 0;
    while i < recs.len()
        invariant
            i <= recs@.len(),
            s@ == head + rec_blocks(recs@.take(i as int)),
        decreases recs@.len() - i,
    {
        push_rec_block(&mut s, i + 1, &recs[i]);
        assert(recs@.take(i + 1).drop_last() =~= recs@.take(i as int));
        i = i + 1;
    }
    assert(recs@.take(i as int) =~= recs@);
    s
}

// ---------------------------------------------------------------------------
// Commands to requests
// ---------------------------------------------------------------------------

/// How the client shows an answer.
#[derive(Debug, Clone, PartialEq, Eq)]
pub enum ReplyView {
    Simple,
    Status { json: bool },
    List { json: bool },
    Stats { json: bool },
    Recommendations { json: bool },
    WindowMode { json: bool },
    History { json: bool },
    Bindings { action: Option<String>, json: bool },
}

/// What a command does.
#[derive(Debug)]
pub enum CommandPlan {
    /// Send a request and show its answer.
    Send(Request, ReplyView),
    /// Read the profile file at the path and send its text for loading.
    LoadProfile(String),
    /// Ask for the status, then show the bindings of the active profile.
    ActiveBindings { action: Option<String>, json: bool },
    /// Run the terminal console.
    RunTui,
    /// Run the daemon with this configuration.
    StartDaemon(DaemonConfig),
    /// Fail with this message without contacting the daemon.
    Invalid(String),
}

/// The message for a snap layout that does not parse.
pub open spec fn bad_layout_text(e: Seq<char>) -> Seq<char> {
    "Invalid snap layout: "@ + e
        + ". Available: half-left, half-right, half-top, half-bottom, two-thirds-left, one-third-right, one-third-left, two-thirds-right, center, maximize, restore"@
}

/// What command `cmd` does when the daemon listens at `socket_path`.
pub fn command_plan(cmd: Command, socket_path: &str) -> (r: CommandPlan)
    ensures
        match cmd {
            Command::Status { json } => r == CommandPlan::Send(Request::Status, ReplyView::Status { json }),
            Command::Bindings { profile: Some(p), action, json } => r matches CommandPlan::Send(
                Request::GetProfile { name },
                ReplyView::Bindings { action: a, json: j },
            ) && name@ == p@ && a == action && j == json,
            Command::Bindings { profile: None, action, json } => r matches CommandPlan::ActiveBindings {
                action: a,
                json: j,
            } && a == action && j == json,
            Command::List { json } => r == CommandPlan::Send(Request::ListProfiles, ReplyView::List { json }),
            Command::Switch { profile, force } => r matches CommandPlan::Send(
                Request::Switch { profile: p, force: f },
                ReplyView::Simple,
            ) && p == profile && f == force,
            Command::Cycle => r == CommandPlan::Send(Request::Cycle, ReplyView::Simple),
            Command::Restore => r == CommandPlan::Send(Request::Restore, ReplyView::Simple),
            Command::WindowMode(args) => {
                let json = args.json || match args.action {
                    Some(WindowModeAction::SetPolicy { json, .. }) => json,
                    Some(WindowModeAction::Status { json }) => json,
                    None => false,
                };
                match args.action {
                    Some(WindowModeAction::SetPolicy { policy, .. }) => match policy_of_name(
                        normalize_policy(policy@),
                    ) {
                        Some(p) => r == CommandPlan::Send(
                            Request::WindowMode { policy: Some(p) },
                            ReplyView::WindowMode { json },
                        ),
                        None => r matches CommandPlan::Invalid(e) && e@ == "Invalid window policy: '"@
                            + policy@ + "'. Available policies: omarchy, tiled, floating, follow-profile"@,
                    },
                    _ => r == CommandPlan::Send(
                        Request::WindowMode { policy: None },
                        ReplyView::WindowMode { json },
                    ),
                }
            },
            Command::Snap { layout, preview } => match crate::protocol::layout_of_name(
                crate::protocol::normalize_layout(layout@),
            ) {
                Some(l) => r == CommandPlan::Send(Request::ApplyLayout { layout: l, preview }, ReplyView::Simple),
                None => r matches CommandPlan::Invalid(e) && e@ == bad_layout_text(
                    "unknown snap layout: '"@ + crate::protocol::normalize_layout(layout@) + "'"@,
                ),
            },
            Command::Monitor { direction } => r matches CommandPlan::Send(
                Request::MoveWindowToMonitor { direction: d },
                ReplyView::Simple,
            ) && d == direction,
            Command::Profile(ProfileCommand::Load { path }) => r matches CommandPlan::LoadProfile(p) && p == path,
            Command::Profile(ProfileCommand::SaveCurrent { name, desc }) => r matches CommandPlan::Send(
                Request::SaveCurrentAsProfile { name: n, description: d },
                ReplyView::Simple,
            ) && n == name && d == desc,
            Command::Profile(ProfileCommand::Create { name, desc, copy_from }) => r matches CommandPlan::Send(
                Request::CreateProfile { name: n, description: d, copy_from: c },
                ReplyView::Simple,
            ) && n == name && d == desc && c == copy_from,
            Command::Profile(ProfileCommand::Bind { profile, key, action, desc }) => r matches CommandPlan::Send(
                Request::UpdateBinding { profile: p, key_combo: k, action: a, description: d },
                ReplyView::Simple,
            ) && p == profile && k == key && a == action && d == desc,
            Command::Profile(ProfileCommand::Unbind { profile, key }) => r matches CommandPlan::Send(
                Request::RemoveBinding { profile: p, key_combo: k },
                ReplyView::Simple,
            ) && p == profile && k == key,
            Command::Profile(ProfileCommand::Save { profile }) => r matches CommandPlan::Send(
                Request::SaveProfile { profile: p },
                ReplyView::Simple,
            ) && p == profile,
            Command::Profile(ProfileCommand::Delete { profile }) => r matches CommandPlan::Send(
                Request::DeleteProfile { profile: p },
                ReplyView::Simple,
            ) && p == profile,
            Command::Stats { json, export: Some(path) } => r matches CommandPlan::Send(
                Request::ExportStats { path: Some(p) },
                ReplyView::Simple,
            ) && p == path,
            Command::Stats { json, export: None } => r == CommandPlan::Send(Request::GetStats, ReplyView::Stats { json }),
            Command::Recommend { json } => r == CommandPlan::Send(
                Request::GetRecommendations,
                ReplyView::Recommendations { json },
            ),
            Command::Tui => r == CommandPlan::RunTui,
            Command::History { limit, json } => r == CommandPlan::Send(
                Request::History { limit: Some(limit) },
                ReplyView::History { json },
            ),
            Command::ReloadPresets => r == CommandPlan::Send(Request::ReloadPresets, ReplyView::Simple),
            Command::Shutdown => r == CommandPlan::Send(Request::Shutdown, ReplyView::Simple),
            Command::Daemon(args) => r matches CommandPlan::StartDaemon(c) && c.socket_path matches Some(
                p,
            ) && p@ == socket_path@ && c.preset_dir == args.preset_dir && c.verbose == args.verbose
                && c.no_notify == args.no_notify,
        },
{
    match cmd {
        Command::Status { json } => CommandPlan::Send(Request::Status, ReplyView::Status { json }),
        Command::Bindings { profile, action, json } => match profile {
            Some(p) => CommandPlan::Send(Request::GetProfile { name: p }, ReplyView::Bindings { action, json }),
            None => CommandPlan::ActiveBindings { action, json },
        },
        Command::List { json } => CommandPlan::Send(Request::ListProfiles, ReplyView::List { json }),
        Command::Switch { profile, force } => CommandPlan::Send(
            Request::Switch { profile, force },
            ReplyView::Simple,
        ),
        Command::Cycle => CommandPlan::Send(Request::Cycle, ReplyView::Simple),
        Command::Restore => CommandPlan::Send(Request::Restore, ReplyView::Simple),
        Command::WindowMode(args) => {
            let json = args.is_json();
            match &args.action {
                Some(WindowModeAction::SetPolicy { policy, .. }) => match parse_window_policy(policy.as_str()) {
                    Ok(p) => CommandPlan::Send(
                        Request::WindowMode { policy: Some(p) },
                        ReplyView::WindowMode { json },
                    ),
                    Err(e) => CommandPlan::Invalid(e),
                },
                _ => CommandPlan::Send(Request::WindowMode { policy: None }, ReplyView::WindowMode { json }),
            }
        },
        Command::Snap { layout, preview } => match SnapLayout::parse(layout.as_str()) {
            Ok(l) => CommandPlan::Send(Request::ApplyLayout { layout: l, preview }, ReplyView::Simple),
            Err(e) => {
                let mut m = concat("Invalid snap layout: ", e.as_str());
                push_str(
                    &mut m,
                    ". Available: half-left, half-right, half-top, half-bottom, two-thirds-left, one-third-right, one-third-left, two-thirds-right, center, maximize, restore",
                );
                CommandPlan::Invalid(m)
            },
        },
        Command::Monitor { direction } => CommandPlan::Send(
            Request::MoveWindowToMonitor { direction },
            ReplyView::Simple,
        ),
        Command::Profile(pc) => match pc {
            ProfileCommand::Load { path } => CommandPlan::LoadProfile(path),
            ProfileCommand::SaveCurrent { name, desc } => CommandPlan::Send(
                Request::SaveCurrentAsProfile { name, description: desc },
                ReplyView::Simple,
            ),
            ProfileCommand::Create { name, desc, copy_from } => CommandPlan::Send(
                Request::CreateProfile { name, description: desc, copy_from },
                ReplyView::Simple,
            ),
            ProfileCommand::Bind { profile, key, action, desc } => CommandPlan::Send(
                Request::UpdateBinding { profile, key_combo: key, action, description: desc },
                ReplyView::Simple,
            ),
            ProfileCommand::Unbind { profile, key } => CommandPlan::Send(
                Request::RemoveBinding { profile, key_combo: key },
                ReplyView::Simple,
            ),
            ProfileCommand::Save { profile } => CommandPlan::Send(
                Request::SaveProfile { profile },
                ReplyView::Simple,
            ),
            ProfileCommand::Delete { profile } => CommandPlan::Send(
                Request::DeleteProfile { profile },
                ReplyView::Simple,
            ),
        },
        Command::Stats { json, export } => match export {
            Some(path) => CommandPlan::Send(Request::ExportStats { path: Some(path) }, ReplyView::Simple),
            None => CommandPlan::Send(Request::GetStats, ReplyView::Stats { json }),
        },
        Command::Recommend { json } => CommandPlan::Send(
            Request::GetRecommendations,
            ReplyView::Recommendations { json },
        ),
        Command::Tui => CommandPlan::RunTui,
        Command::History { limit, json } => CommandPlan::Send(
            Request::History { limit: Some(limit) },
            ReplyView::History { json },
        ),
        Command::ReloadPresets => CommandPlan::Send(Request::ReloadPresets, ReplyView::Simple),
        Command::Shutdown => CommandPlan::Send(Request::Shutdown, ReplyView::Simple),
        Command::Daemon(args) => CommandPlan::StartDaemon(
            DaemonConfig {
                socket_path: Some(owned(socket_path)),
                preset_dir: args.preset_dir,
                verbose: args.verbose,
                no_notify: args.no_notify,
            },
        ),
    }
}

// ---------------------------------------------------------------------------
// Bindings and history
// ---------------------------------------------------------------------------

/// Whether `needle` occurs in `hay`.
pub open spec fn has_infix(hay: Seq<char>, needle: Seq<char>) -> bool {
    exists|i: int| 0 <= i <= hay.len() - needle.len() && #[trigger] hay.subrange(i, i + needle.len()) == needle
}

/// Whether `needle` occurs in `hay`.
pub fn text_contains(hay: &str, needle: &str) -> (r: bool)
    ensures
        r == has_infix(hay@, needle@),
{
    let h = chars_of(hay);
    let n = chars_of(needle);
    if n.len() > h.len() {
        proof {
            assert forall|i: int| 0 <= i <= hay@.len() - needle@.len() implies #[trigger] hay@.subrange(i, i + needle@.len()) != needle@ by {
            }
        }
        return false;
    }
    let mut i: usize = 0;
    while i <= h.len() - n.len()
        invariant
            h@ == hay@,
            n@ == needle@,
            n@.len() <= h@.len(),
            i <= h@.len() - n@.len() + 1,
            forall|k: int| 0 <= k < i ==> #[trigger] hay@.subrange(k, k + needle@.len()) != needle@,
        decreases h@.len() - n@.len() + 1 - i,
    {
        let mut j: usize = 0;
        let mut same = true;
        while j < n.len()
            invariant
                j <= n@.len(),
                i + n@.len() <= h@.len(),
                h@.len() == h.len(),
                same <==> forall|q: int| 0 <= q < j ==> h@[i + q] == n@[q],
            decreases n@.len() - j,
        {
            if h[i + j] != n[j] {
                same = false;
            }
            j = j + 1;
        }
        if same {
            assert(hay@.subrange(i as int, i + needle@.len()) =~= needle@);
            return true;
        }
        assert(hay@.subrange(i as int, i + needle@.len()) != needle@) by {
            let q = choose|q: int| 0 <= q < n@.len() && h@[i + q] != n@[q];
            assert(hay@.subrange(i as int, i + needle@.len())[q] != needle@[q]);
        }
        i = i + 1;
    }
    false
}

/// One binding as listed: key, action and description.
pub open spec fn binding_row(b: crate::protocol::BindingInfo) -> Seq<char> {
    "  "@ + pad(b.key_combo@, 24) + " "@ + b.action@ + match b.description {
        Some(d) => "  ("@ + d@ + ")"@,
        None => Seq::empty(),
    } + "\n"@
}

/// The listed bindings among `bs`: those whose action contains `filter`
/// when one is given.
pub open spec fn binding_rows(bs: Seq<crate::protocol::BindingInfo>, filter: Option<&str>) -> Seq<char>
    decreases bs.len(),
{
    if bs.len() == 0 {
        Seq::empty()
    } else {
        binding_rows(bs.drop_last(), filter) + if match filter {
            Some(f) => has_infix(bs.last().action@, f@),
            None => true,
        } {
            binding_row(bs.last())
        } else {
            Seq::empty()
        }
    }
}

fn push_binding_row(s: &mut String, b: &crate::protocol::BindingInfo)
    ensures
        final(s)@ == old(s)@ + binding_row(*b),
{
    push_str(s, "  ");
    push_padded(s, b.key_combo.as_str(), 24);
    push_str(s, " ");
    push_str(s, b.action.as_str());
    match &b.description {
        Some(d) => {
            push_str(s, "  (");
            push_str(s, d.as_str());
            push_str(s, ")");
        },
        None => {},
    }
    push_str(s, "\n");
    assert(final(s)@ =~= old(s)@ + binding_row(*b));
}

/// The bindings of a profile as printed: a title line, then one line per
/// binding whose action contains `filter` (every binding without one).
pub fn format_bindings_text(details: &crate::protocol::ProfileDetails, filter: Option<&str>) -> (r: String)
    ensures
        r@ == "Bindings of profile '"@ + details.name@ + "':\n"@ + binding_rows(details.bindings@, filter),
{
    let mut s = concat3("Bindings of profile '", details.name.as_str(), "':\n");
    let ghost head = s@;
    let mut i: usize = 0;
    while i < details.bindings.len()
        invariant
            i <= details.bindings@.len(),
            s@ == head + binding_rows(details.bindings@.take(i as int), filter),
        decreases details.bindings@.len() - i,
    {
        let b = &details.bindings[i];
        let keep = match filter {
            Some(f) => text_contains(b.action.as_str(), f),
            None => true,
        };
        if keep {
            push_binding_row(&mut s, b);
        }
        proof {
            assert(details.bindings@.take(i + 1).drop_last() =~= details.bindings@.take(i as int));
        }
        i = i + 1;
    }
    assert(details.bindings@.take(i as int) =~= details.bindings@);
    s
}

/// One history record as printed.
pub open spec fn history_row(e: crate::protocol::HistoryEntry) -> Seq<char> {
    "  #"@ + decimal(e.sequence as nat) + " "@ + e.profile@ + ": "@ + if e.succeeded {
        "ok, "@ + decimal(e.applied as nat) + " applied, "@ + decimal(e.skipped as nat) + " skipped, "@
            + decimal(e.forced as nat) + " forced, "@ + decimal(e.duration_us as nat) + "us\n"@
    } else {
        "failed: "@ + match e.error {
            Some(x) => x@,
            None => Seq::empty(),
        } + "\n"@
    }
}

/// The history records as printed, in order.
pub open spec fn history_rows(es: Seq<crate::protocol::HistoryEntry>) -> Seq<char>
    decreases es.len(),
{
    if es.len() == 0 {
        Seq::empty()
    } else {
        history_rows(es.drop_last()) + history_row(es.last())
    }
}

fn push_history_row(s: &mut String, e: &crate::protocol::HistoryEntry)
    ensures
        final(s)@ == old(s)@ + history_row(*e),
{
    push_str(s, "  #");
    push_decimal(s, e.sequence as u128);
    push_str(s, " ");
    push_str(s, e.profile.as_str());
    push_str(s, ": ");
    if e.succeeded {
        push_str(s, "ok, ");
        push_decimal(s, e.applied as u128);
        push_str(s, " applied, ");
        push_decimal(s, e.skipped as u128);
        push_str(s, " skipped, ");
        push_decimal(s, e.forced as u128);
        push_str(s, " forced, ");
        push_decimal(s, e.duration_us);
        push_str(s, "us\n");
    } else {
        push_str(s, "failed: ");
        match &e.error {
            Some(x) => push_str(s, x.as_str()),
            None => {},
        }
        push_str(s, "\n");
    }
    assert(final(s)@ =~= old(s)@ + history_row(*e));
}

/// The switch history as printed, newest first as the daemon sends it.
pub fn format_history_text(entries: &Vec<crate::protocol::HistoryEntry>) -> (r: String)
    ensures
        r@ == "Profile switch history:\n"@ + history_rows(entries@),
{
    let mut s = owned("Profile switch history:\n");
    let ghost head = s@;
    let mut i: usize = 0;
    while i < entries.len()
        invariant
            i <= entries@.len(),
            s@ == head + history_rows(entries@.take(i as int)),
        decreases entries@.len() - i,
    {
        push_history_row(&mut s, &entries[i]);
        assert(entries@.take(i + 1).drop_last() =~= entries@.take(i as int));
        i = i + 1;
    }
    assert(entries@.take(i as int) =~= entries@);
    s
}

/// The status request that tells which profile is active, for a bindings
/// listing of the active profile, and the profile request that follows.
pub fn active_profile_request(status: &StatusInfo) -> (r: Request)
    ensures
        r matches Request::GetProfile { name } && name@ == status.active_profile@,
{
    Request::GetProfile { name: status.active_profile.clone() }
}

} // verus!
