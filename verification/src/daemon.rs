//! The daemon's decisions: what each client request answers and changes,
//! and the compositor work it asks for. The service loop that owns the
//! sockets performs that work and hands the outcome back here.
use vstd::prelude::*;

use crate::binding::{canonical, default_launcher, Action, ActionView, KeyCombo};
use crate::hypr::{Direction, HyprAction, HyprKeyBinding, WorkspaceTarget};
use crate::layout::GeometryMemory;
use crate::plugin::{LoadedPlugin, PluginRegistry};
use crate::protocol::{Event, PluginInfo, PluginPermissionScope, Response, WindowPolicy};
use crate::state::{StateManager, SwitchPlan};
use crate::stats::StatsEngine;
use crate::health::HealthState;
use crate::text::{concat, concat3, owned, push_str, str_eq};

verus! {

// ---------------------------------------------------------------------------
// Configuration
// ---------------------------------------------------------------------------

/// Settings the daemon starts with.
#[derive(Debug, Clone, PartialEq, Eq)]
pub struct DaemonConfig {
    pub socket_path: Option<String>,
    pub preset_dir: String,
    pub verbose: u8,
    pub no_notify: bool,
}

impl Default for DaemonConfig {
    fn default() -> (r: DaemonConfig)
        ensures
            r.socket_path is None,
            r.preset_dir@ == "presets"@,
            r.verbose == 0,
            !r.no_notify,
    {
        DaemonConfig { socket_path: None, preset_dir: owned("presets"), verbose: 0, no_notify: false }
    }
}

/// Whether a `AETHERSHIFT_NO_NOTIFY` value turns notifications off: `1`, or
/// `true` in any letter case.
pub open spec fn switches_off(v: Seq<char>) -> bool {
    v == "1"@ || crate::text::ascii_lower(v) == "true"@
}

impl DaemonConfig {
    /// Whether notifications are off, given the value of the
    /// `AETHERSHIFT_NO_NOTIFY` variable when it is set.
    pub fn notifications_disabled_with(&self, env_value: Option<&str>) -> (r: bool)
        ensures
            r == (self.no_notify || (env_value matches Some(v) && switches_off(v@))),
    {
        if self.no_notify {
            return true;
        }
        match env_value {
            Some(v) => {
                let cs = crate::text::chars_of(v);
                let lower = crate::text::ascii_lower_chars(&cs);
                let l = crate::text::string_of(&lower);
                str_eq(v, "1") || str_eq(l.as_str(), "true")
            },
            None => false,
        }
    }

    /// The socket to listen on: the configured one, else the value of
    /// `AETHERSHIFT_SOCKET` when set, else `default_path`.
    pub fn resolved_socket_path_with(&self, env_value: Option<&str>, default_path: &str) -> (r:
        String)
        ensures
            r@ == match self.socket_path {
                Some(p) => p@,
                None => match env_value {
                    Some(v) => v@,
                    None => default_path@,
                },
            },
    {
        match &self.socket_path {
            Some(p) => p.clone(),
            None => match env_value {
                Some(v) => owned(v),
                None => owned(default_path),
            },
        }
    }

    /// The preset directory: the value of `AETHERSHIFT_PRESET_DIR` when set,
    /// else the configured one.
    pub fn resolved_preset_dir_with(&self, env_value: Option<&str>) -> (r: String)
        ensures
            r@ == match env_value {
                Some(v) => v@,
                None => self.preset_dir@,
            },
    {
        match env_value {
            Some(v) => owned(v),
            None => self.preset_dir.clone(),
        }
    }
}

/// The user configuration directory from `XDG_CONFIG_HOME` and `HOME` (each
/// when set).
pub open spec fn config_dir(xdg: Option<Seq<char>>, home: Option<Seq<char>>) -> Seq<char> {
    match xdg {
        Some(d) => d,
        None => match home {
            Some(h) => h + "/.config"@,
            None => "/tmp/.config"@,
        },
    }
}

/// The user configuration directory: `XDG_CONFIG_HOME`, else `HOME/.config`,
/// else `/tmp/.config`.
pub fn user_config_dir(xdg_config_home: Option<&str>, home: Option<&str>) -> (r: String)
    ensures
        r@ == config_dir(opt_str(xdg_config_home), opt_str(home)),
{
    match xdg_config_home {
        Some(d) => owned(d),
        None => match home {
            Some(h) => concat(h, "/.config"),
            None => owned("/tmp/.config"),
        },
    }
}

/// The directory the action plugins are loaded from.
pub fn plugin_dir_in(xdg_config_home: Option<&str>, home: Option<&str>) -> (r: String)
    ensures
        r@ == config_dir(opt_str(xdg_config_home), opt_str(home)) + "/aethershift/plugins"@,
{
    let mut d = user_config_dir(xdg_config_home, home);
    push_str(&mut d, "/aethershift/plugins");
    d
}

pub open spec fn opt_str(o: Option<&str>) -> Option<Seq<char>> {
    match o {
        Some(s) => Some(s@),
        None => None,
    }
}

// ---------------------------------------------------------------------------
// Events and subscriptions
// ---------------------------------------------------------------------------

/// The kind name of an event, as subscription filters name it.
pub open spec fn event_kind_name(e: Event) -> Seq<char> {
    match e {
        Event::SwitchSucceeded { .. } => "switch-succeeded"@,
        Event::SwitchFailed { .. } => "switch-failed"@,
        Event::Restored { .. } => "restored"@,
        Event::WindowPolicyChanged { .. } => "window-policy-changed"@,
        Event::PresetsReloaded { .. } => "presets-reloaded"@,
    }
}

/// The kind name of `event`.
pub fn event_kind(event: &Event) -> (r: &'static str)
    ensures
        r@ == event_kind_name(*event),
{
    match event {
        Event::SwitchSucceeded { .. } => "switch-succeeded",
        Event::SwitchFailed { .. } => "switch-failed",
        Event::Restored { .. } => "restored",
        Event::WindowPolicyChanged { .. } => "window-policy-changed",
        Event::PresetsReloaded { .. } => "presets-reloaded",
    }
}

/// Whether a subscriber with `filters` receives `response`: every response
/// when there are no filters, else only events whose kind is listed.
pub open spec fn passes_filters(response: Response, filters: Seq<String>) -> bool {
    if filters.len() == 0 {
        true
    } else {
        match response {
            Response::Event { event } => exists|i: int|
                0 <= i < filters.len() && (#[trigger] filters[i])@ == event_kind_name(event),
            _ => false,
        }
    }
}

/// Whether a subscriber with `filters` receives `response`.
pub fn event_matches_filters(response: &Response, filters: &Vec<String>) -> (r: bool)
    ensures
        r == passes_filters(*response, filters@),
{
    if filters.len() == 0 {
        return true;
    }
    let event = match response {
        Response::Event { event } => event,
        _ => {
            return false;
        },
    };
    let kind = event_kind(event);
    let mut i: usize = 0;
    while i < filters.len()
        invariant
            i <= filters@.len(),
            kind@ == event_kind_name(*event),
            filters@.len() > 0,
            *response == (Response::Event { event: *event }),
            forall|j: int| 0 <= j < i ==> (#[trigger] filters@[j])@ != kind@,
        decreases filters@.len() - i,
    {
        if str_eq(filters[i].as_str(), kind) {
            assert((#[trigger] filters@[i as int])@ == event_kind_name(*event));
            return true;
        }
        i = i + 1;
    }
    false
}

// ---------------------------------------------------------------------------
// Plugins on the wire
// ---------------------------------------------------------------------------

/// The wire description of a loaded plugin: its manifest, without error.
pub fn plugin_to_wire(plugin: &LoadedPlugin) -> (r: PluginInfo)
    ensures
        r.id@ == plugin.manifest.id@,
        r.version@ == plugin.manifest.version@,
        r.description@ == plugin.manifest.description@,
        r.executable@ == plugin.manifest.executable@,
        r.timeout_ms == plugin.manifest.timeout_ms,
        r.permissions@ == plugin.manifest.permissions@,
        r.enabled == plugin.manifest.enabled,
        r.error is None,
{
    let m = &plugin.manifest;
    let mut permissions: Vec<PluginPermissionScope> = Vec::new();
    let mut i: usize = 0;
    while i < m.permissions.len()
        invariant
            i <= m.permissions@.len(),
            permissions@ == m.permissions@.take(i as int),
        decreases m.permissions@.len() - i,
    {
        let p: PluginPermissionScope = match m.permissions[i] {
            PluginPermissionScope::NoneRequired => PluginPermissionScope::NoneRequired,
            PluginPermissionScope::HyprlandDispatch => PluginPermissionScope::HyprlandDispatch,
            PluginPermissionScope::Shell => PluginPermissionScope::Shell,
            PluginPermissionScope::Clipboard => PluginPermissionScope::Clipboard,
            PluginPermissionScope::Notification => PluginPermissionScope::Notification,
        };
        permissions.push(p);
        assert(permissions@ =~= m.permissions@.take(i + 1));
        i = i + 1;
    }
    assert(permissions@ =~= m.permissions@);
    PluginInfo {
        id: m.id.clone(),
        version: m.version.clone(),
        description: m.description.clone(),
        executable: m.executable.clone(),
        timeout_ms: m.timeout_ms,
        permissions,
        enabled: m.enabled,
        error: None,
    }
}

// ---------------------------------------------------------------------------
// Actions to compositor commands
// ---------------------------------------------------------------------------

/// The special workspace a toggle names (`scratchpad` when it names none).
pub open spec fn special_name(n: Option<Seq<char>>) -> Seq<char> {
    match n {
        Some(x) => x,
        None => "scratchpad"@,
    }
}

/// Whether `h` is the compositor action the daemon binds for action `a`.
pub open spec fn hypr_action_of(a: ActionView, h: HyprAction) -> bool {
    match a {
        ActionView::CloseWindow => h == HyprAction::CloseWindow,
        ActionView::SnapLeft => h == HyprAction::Focus(Direction::Left),
        ActionView::SnapRight => h == HyprAction::Focus(Direction::Right),
        ActionView::Maximize => h == HyprAction::ToggleFullscreen(Some(1)),
        ActionView::Restore => h == HyprAction::ToggleFullscreen(Some(0)),
        ActionView::FloatToggle => h == HyprAction::ToggleFloating,
        ActionView::Fullscreen => h == HyprAction::ToggleFullscreen(None),
        ActionView::WorkspaceNext => h == HyprAction::Workspace(WorkspaceTarget::Relative(1)),
        ActionView::WorkspacePrev => h == HyprAction::Workspace(WorkspaceTarget::Relative(-1i32)),
        ActionView::ToggleSpecialWorkspace(n) => h matches HyprAction::CustomLua(c) && c@
            == "hl.dsp.workspace.toggle_special(\""@ + special_name(n) + "\")"@,
        ActionView::ToggleLauncher(c) => h matches HyprAction::Exec(x) && x@ == match c {
            Some(y) => y,
            None => default_launcher(),
        },
        ActionView::Exec(c) => h matches HyprAction::Exec(x) && x@ == c,
        ActionView::Plugin(id) => h matches HyprAction::Exec(x) && x@ == "aethershift plugin run "@
            + id,
        ActionView::Custom { dispatcher, args } => h matches HyprAction::CustomLua(x) && x@
            == crate::backend::dsp_call(dispatcher, args),
        ActionView::CycleWindowNext => h matches HyprAction::CustomLua(x) && x@
            == "hl.dsp.window.cycle_next()"@,
        ActionView::CycleWindowPrev => h matches HyprAction::CustomLua(x) && x@
            == "hl.dsp.window.cycle_next({ prev = true })"@,
        ActionView::MoveToWorkspaceNext => h == HyprAction::MoveToWorkspace(
            WorkspaceTarget::Relative(1),
        ),
        ActionView::MoveToWorkspacePrev => h == HyprAction::MoveToWorkspace(
            WorkspaceTarget::Relative(-1i32),
        ),
    }
}

/// Whether `b` is the binding the daemon installs for combo `c`, action `a`
/// and description `d`.
pub open spec fn key_binding_of(c: crate::binding::ComboView, a: ActionView, d: Option<Seq<char>>, b: HyprKeyBinding) -> bool {
    &&& b.keys@ == canonical(c)
    &&& hypr_action_of(a, b.action)
    &&& crate::binding::opt_view(b.description) == d
}

// ---------------------------------------------------------------------------
// Daemon state
// ---------------------------------------------------------------------------

/// What the daemon keeps between requests.
#[derive(Debug)]
pub struct AetherDaemon {
    pub config: DaemonConfig,
    pub state: StateManager,
    pub geometry_memory: GeometryMemory,
    pub stats: StatsEngine,
    pub plugins: PluginRegistry,
    pub health: HealthState,
    pub window_policy: WindowPolicy,
}

impl AetherDaemon {
    pub open spec fn wf(&self) -> bool {
        &&& self.state.wf()
        &&& self.geometry_memory.wf()
        &&& self.stats.wf()
        &&& self.plugins.wf()
    }

    /// A daemon with the built-in presets, no statistics or plugins, the
    /// `hyprland` backend recorded as not connected yet and the `omarchy`
    /// window policy.
    pub fn new(config: DaemonConfig) -> (r: AetherDaemon)
        ensures
            r.wf(),
            r.config == config,
            crate::state::initial_state(r.state),
            r.state.history().len() == 0,
            r.stats.switches() == 0,
            r.geometry_memory@ == Map::<Seq<char>, crate::layout::Rect>::empty(),
            r.plugins.loaded() == Map::<Seq<char>, LoadedPlugin>::empty(),
            r.health.backend@ == "hyprland"@,
            !r.health.backend_connected,
            r.health.total_switches == 0,
            r.health.failed_switches == 0,
            r.health.last_error is None,
            r.window_policy == WindowPolicy::Omarchy,
    {
        AetherDaemon {
            config,
            state: StateManager::new(),
            geometry_memory: GeometryMemory::new(),
            stats: StatsEngine::new(),
            plugins: PluginRegistry::new(),
            health: HealthState {
                active_profile: String::new(),
                backend: owned("hyprland"),
                backend_connected: false,
                baseline_count: 0,
                active_connections: 0,
                total_switches: 0,
                failed_switches: 0,
                switch_duration_sum_us: 0,
                max_switch_duration_us: 0,
                last_switch_duration_us: 0,
                last_switch_succeeded: false,
                skipped_conflicts: 0,
                forced_overrides: 0,
                plugins_loaded: 0,
                plugins_failed: 0,
                last_error: None,
            },
            window_policy: WindowPolicy::Omarchy,
        }
    }

    /// The compositor action bound for `action`.
    pub fn core_action_to_hypr(action: &Action) -> (r: HyprAction)
        ensures
            hypr_action_of(action@, r),
    {
        match action {
            Action::CloseWindow => HyprAction::CloseWindow,
            Action::SnapLeft => HyprAction::Focus(Direction::Left),
            Action::SnapRight => HyprAction::Focus(Direction::Right),
            Action::Maximize => HyprAction::ToggleFullscreen(Some(1)),
            Action::Restore => HyprAction::ToggleFullscreen(Some(0)),
            Action::FloatToggle => HyprAction::ToggleFloating,
            Action::Fullscreen => HyprAction::ToggleFullscreen(None),
            Action::WorkspaceNext => HyprAction::Workspace(WorkspaceTarget::Relative(1)),
            Action::WorkspacePrev => HyprAction::Workspace(WorkspaceTarget::Relative(-1i32)),
            Action::ToggleSpecialWorkspace(name) => {
                let s: &str = match name {
                    Some(n) => n.as_str(),
                    None => "scratchpad",
                };
                HyprAction::CustomLua(concat3("hl.dsp.workspace.toggle_special(\"", s, "\")"))
            },
            Action::ToggleLauncher(cmd) => {
                let s: &str = match cmd {
                    Some(c) => c.as_str(),
                    None => "omarchy-launch-walker || rofi -show drun || wofi --show drun",
                };
                proof {
                    reveal_strlit("omarchy-launch-walker || rofi -show drun || wofi --show drun");
                }
                HyprAction::Exec(owned(s))
            },
            Action::Exec(cmd) => HyprAction::Exec(cmd.clone()),
            Action::Plugin(id) => HyprAction::Exec(concat("aethershift plugin run ", id.as_str())),
            Action::Custom { dispatcher, args } => {
                let mut s = concat3("hl.dsp.", dispatcher.as_str(), "(\"");
                push_str(&mut s, args.as_str());
                push_str(&mut s, "\")");
                HyprAction::CustomLua(s)
            },
            Action::CycleWindowNext => HyprAction::CustomLua(owned("hl.dsp.window.cycle_next()")),
            Action::CycleWindowPrev => HyprAction::CustomLua(
                owned("hl.dsp.window.cycle_next({ prev = true })"),
            ),
            Action::MoveToWorkspaceNext => HyprAction::MoveToWorkspace(WorkspaceTarget::Relative(1)),
            Action::MoveToWorkspacePrev => HyprAction::MoveToWorkspace(
                WorkspaceTarget::Relative(-1i32),
            ),
        }
    }

    /// The binding installed for `combo`, `action` and description `desc`.
    pub fn plan_binding_to_hypr(combo: &KeyCombo, action: &Action, desc: Option<&str>) -> (r:
        HyprKeyBinding)
        ensures
            key_binding_of(combo@, action@, opt_str(desc), r),
    {
        let keys = combo.canonical_str();
        let hypr_action = Self::core_action_to_hypr(action);
        let mut binding = HyprKeyBinding::new(keys.as_str(), hypr_action);
        match desc {
            Some(d) => {
                binding = binding.with_description(d);
            },
            None => {},
        }
        binding
    }

    /// What applying `plan` sends to the compositor: the canonical text of
    /// each combo to unbind, and the binding to install for each binding of
    /// the plan, in order.
    pub fn plan_commands(plan: &SwitchPlan) -> (r: (Vec<String>, Vec<HyprKeyBinding>))
        ensures
            r.0@.len() == plan.unbind@.len(),
            forall|i: int| 0 <= i < r.0@.len() ==> #[trigger] r.0@[i]@ == canonical(plan.unbind@[i]@),
            r.1@.len() == plan.bind@.len(),
            forall|i: int|
                0 <= i < r.1@.len() ==> key_binding_of(
                    plan.bind@[i].key_combo@,
                    plan.bind@[i].action@,
                    crate::binding::opt_view(plan.bind@[i].description),
                    #[trigger] r.1@[i],
                ),
    {
        let mut unbinds: Vec<String> = Vec::new();
        let mut i: usize = 0;
        while i < plan.unbind.len()
            invariant
                i <= plan.unbind@.len(),
                unbinds@.len() == i,
                forall|k: int| 0 <= k < i ==> #[trigger] unbinds@[k]@ == canonical(plan.unbind@[k]@),
            decreases plan.unbind@.len() - i,
        {
            unbinds.push(plan.unbind[i].canonical_str());
            i = i + 1;
        }
        let mut binds: Vec<HyprKeyBinding> = Vec::new();
        let mut k: usize = 0;
        while k < plan.bind.len()
            invariant
                k <= plan.bind@.len(),
                binds@.len() == k,
                forall|m: int|
                    0 <= m < k ==> key_binding_of(
                        plan.bind@[m].key_combo@,
                        plan.bind@[m].action@,
                        crate::binding::opt_view(plan.bind@[m].description),
                        #[trigger] binds@[m],
                    ),
            decreases plan.bind@.len() - k,
        {
            let b = &plan.bind[k];
            let desc: Option<&str> = match &b.description {
                Some(d) => Some(d.as_str()),
                None => None,
            };
            binds.push(Self::plan_binding_to_hypr(&b.key_combo, &b.action, desc));
            k = k + 1;
        }
        (unbinds, binds)
    }
}

/// The "previous" workspace actions compile to the inverse of the "next"
/// ones: focusing moves one workspace forward for next and one back for
/// previous, and so does moving the window.
pub proof fn law_prev_workspace_actions_invert_next(h1: HyprAction, h2: HyprAction, h3: HyprAction, h4: HyprAction)
    requires
        hypr_action_of(ActionView::WorkspaceNext, h1),
        hypr_action_of(ActionView::WorkspacePrev, h2),
        hypr_action_of(ActionView::MoveToWorkspaceNext, h3),
        hypr_action_of(ActionView::MoveToWorkspacePrev, h4),
    ensures
        h1 matches HyprAction::Workspace(WorkspaceTarget::Relative(n)) && n == 1,
        h2 matches HyprAction::Workspace(WorkspaceTarget::Relative(n)) && n == -1,
        h3 matches HyprAction::MoveToWorkspace(WorkspaceTarget::Relative(n)) && n == 1,
        h4 matches HyprAction::MoveToWorkspace(WorkspaceTarget::Relative(n)) && n == -1,
{
}

/// The two snap actions move the focus in opposite directions, left for
/// snap-left and right for snap-right.
pub proof fn law_snaps_focus_opposite_ways(h1: HyprAction, h2: HyprAction)
    requires
        hypr_action_of(ActionView::SnapLeft, h1),
        hypr_action_of(ActionView::SnapRight, h2),
    ensures
        h1 == HyprAction::Focus(Direction::Left),
        h2 == HyprAction::Focus(Direction::Right),
{
}

} // verus!
