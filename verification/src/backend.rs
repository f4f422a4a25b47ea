//! Compositor backends: their kinds, capabilities and health, and the
//! translation between the planner's values and the compositor's.
use vstd::prelude::*;

use crate::binding::{canonical, dispatcher_of, opt_view, spec_parse_combo, KeyCombo};
use crate::error::CoreError;
use crate::hypr::{HyprAction, HyprBind, HyprKeyBinding, HyprlandClient};
use crate::state::{BaselineBinding, SwitchPlan};
use crate::text::{ascii_lower, ascii_lower_chars, chars_of, concat, concat3, owned, push_str, str_eq, string_of};

verus! {

/// Supported compositor backend kinds.
#[derive(Debug, Clone, Copy, PartialEq, Eq, Hash, Structural)]
pub enum BackendKind {
    Hyprland,
    Omarchy,
    Niri,
    Sway,
}

pub open spec fn backend_name(k: BackendKind) -> Seq<char> {
    match k {
        BackendKind::Hyprland => "hyprland"@,
        BackendKind::Omarchy => "omarchy"@,
        BackendKind::Niri => "niri"@,
        BackendKind::Sway => "sway"@,
    }
}

impl BackendKind {
    pub fn as_str(&self) -> (r: &'static str)
        ensures
            r@ == backend_name(*self),
    {
        match self {
            BackendKind::Hyprland => "hyprland",
            BackendKind::Omarchy => "omarchy",
            BackendKind::Niri => "niri",
            BackendKind::Sway => "sway",
        }
    }

    /// Parses a backend name, ignoring ASCII case.
    pub fn parse(s: &str) -> (r: Result<BackendKind, CoreError>)
        ensures
            ({
                let l = ascii_lower(s@);
                if l == "hyprland"@ {
                    r == Ok::<BackendKind, CoreError>(BackendKind::Hyprland)
                } else if l == "omarchy"@ {
                    r == Ok::<BackendKind, CoreError>(BackendKind::Omarchy)
                } else if l == "niri"@ {
                    r == Ok::<BackendKind, CoreError>(BackendKind::Niri)
                } else if l == "sway"@ {
                    r == Ok::<BackendKind, CoreError>(BackendKind::Sway)
                } else {
                    r matches Err(CoreError::Validation { profile, message }) && profile@
                        == "backend"@ && message@ == "Unknown backend: '"@ + s@ + "'"@
                }
            }),
    {
        let c = chars_of(s);
        let lv = ascii_lower_chars(&c);
        let ls = string_of(&lv);
        let l = ls.as_str();
        if str_eq(l, "hyprland") {
            Ok(BackendKind::Hyprland)
        } else if str_eq(l, "omarchy") {
            Ok(BackendKind::Omarchy)
        } else if str_eq(l, "niri") {
            Ok(BackendKind::Niri)
        } else if str_eq(l, "sway") {
            Ok(BackendKind::Sway)
        } else {
            Err(
                CoreError::Validation {
                    profile: owned("backend"),
                    message: concat3("Unknown backend: '", s, "'"),
                },
            )
        }
    }
}

impl std::str::FromStr for BackendKind {
    type Err = CoreError;

    fn from_str(s: &str) -> (r: Result<Self, Self::Err>)
        ensures
            ({
                let l = ascii_lower(s@);
                if l == "hyprland"@ {
                    r == Ok::<BackendKind, CoreError>(BackendKind::Hyprland)
                } else if l == "omarchy"@ {
                    r == Ok::<BackendKind, CoreError>(BackendKind::Omarchy)
                } else if l == "niri"@ {
                    r == Ok::<BackendKind, CoreError>(BackendKind::Niri)
                } else if l == "sway"@ {
                    r == Ok::<BackendKind, CoreError>(BackendKind::Sway)
                } else {
                    r matches Err(CoreError::Validation { profile, message }) && profile@
                        == "backend"@ && message@ == "Unknown backend: '"@ + s@ + "'"@
                }
            }),
    {
        BackendKind::parse(s)
    }
}

/// What a backend can do.
#[derive(Debug, Clone, Copy, PartialEq, Eq, Structural)]
pub struct BackendCapabilities {
    pub dynamic_keybinds: bool,
    pub exact_window_geometry: bool,
    pub multi_monitor_aware: bool,
    pub socket_events: bool,
    pub floating_toggle: bool,
}

impl Default for BackendCapabilities {
    fn default() -> (r: BackendCapabilities)
        ensures
            r == (BackendCapabilities {
                dynamic_keybinds: true,
                exact_window_geometry: true,
                multi_monitor_aware: true,
                socket_events: true,
                floating_toggle: true,
            }),
    {
        BackendCapabilities {
            dynamic_keybinds: true,
            exact_window_geometry: true,
            multi_monitor_aware: true,
            socket_events: true,
            floating_toggle: true,
        }
    }
}

/// Health reported by a backend.
#[derive(Debug, Clone, PartialEq, Eq)]
pub struct BackendHealth {
    pub kind: BackendKind,
    pub connected: bool,
    pub message: String,
    pub capabilities: BackendCapabilities,
}

/// The Hyprland (or Omarchy) backend.
pub struct HyprlandBackend {
    client: HyprlandClient,
    is_omarchy: bool,
}

impl HyprlandBackend {
    pub closed spec fn omarchy(&self) -> bool {
        self.is_omarchy
    }

    pub fn new(client: HyprlandClient, is_omarchy: bool) -> (r: HyprlandBackend)
        ensures
            r.omarchy() == is_omarchy,
            r.client_path() == client.path(),
    {
        HyprlandBackend { client, is_omarchy }
    }

    pub closed spec fn client_path(&self) -> Seq<char> {
        self.client.path()
    }

    pub fn client(&self) -> (r: &HyprlandClient)
        ensures
            r.path() == self.client_path(),
    {
        &self.client
    }

    pub fn kind(&self) -> (r: BackendKind)
        ensures
            r == if self.omarchy() {
                BackendKind::Omarchy
            } else {
                BackendKind::Hyprland
            },
    {
        if self.is_omarchy {
            BackendKind::Omarchy
        } else {
            BackendKind::Hyprland
        }
    }

    pub fn capabilities(&self) -> (r: BackendCapabilities)
        ensures
            r == (BackendCapabilities {
                dynamic_keybinds: true,
                exact_window_geometry: true,
                multi_monitor_aware: true,
                socket_events: true,
                floating_toggle: true,
            }),
    {
        BackendCapabilities::default()
    }

    /// The health report, given whether the control socket exists.
    pub fn health_for(&self, connected: bool) -> (r: BackendHealth)
        ensures
            r.kind == (if self.omarchy() { BackendKind::Omarchy } else { BackendKind::Hyprland }),
            r.connected == connected,
            r.message@ == if connected {
                "Connected to "@ + backend_name(r.kind) + " at "@ + self.client_path()
            } else {
                "Socket disconnected"@
            },
            r.capabilities == (BackendCapabilities {
                dynamic_keybinds: true,
                exact_window_geometry: true,
                multi_monitor_aware: true,
                socket_events: true,
                floating_toggle: true,
            }),
    {
        let kind = self.kind();
        let message = if connected {
            let mut m = concat3("Connected to ", kind.as_str(), " at ");
            push_str(&mut m, self.client.socket_path());
            m
        } else {
            owned("Socket disconnected")
        };
        BackendHealth { kind, connected, message, capabilities: self.capabilities() }
    }
}

/// The experimental Sway backend; it applies nothing.
pub struct SwayBackend {
    pub socket_path: Option<String>,
}

impl SwayBackend {
    pub fn kind(&self) -> (r: BackendKind)
        ensures
            r == BackendKind::Sway,
    {
        BackendKind::Sway
    }

    pub fn capabilities(&self) -> (r: BackendCapabilities)
        ensures
            r == (BackendCapabilities {
                dynamic_keybinds: false,
                exact_window_geometry: true,
                multi_monitor_aware: true,
                socket_events: true,
                floating_toggle: true,
            }),
    {
        BackendCapabilities {
            dynamic_keybinds: false,
            exact_window_geometry: true,
            multi_monitor_aware: true,
            socket_events: true,
            floating_toggle: true,
        }
    }

    /// The health report, given whether the socket is active.
    pub fn health_for(&self, connected: bool) -> (r: BackendHealth)
        ensures
            r.kind == BackendKind::Sway,
            r.connected == connected,
            r.message@ == if connected {
                "Sway IPC active (experimental)"@
            } else {
                "SWAYSOCK not found or socket inactive"@
            },
            r.capabilities.dynamic_keybinds == false,
    {
        BackendHealth {
            kind: BackendKind::Sway,
            connected,
            message: if connected {
                owned("Sway IPC active (experimental)")
            } else {
                owned("SWAYSOCK not found or socket inactive")
            },
            capabilities: self.capabilities(),
        }
    }
}

/// The Lua expression `hl.dsp.ACTION("ARGS")`.
pub open spec fn dsp_call(action: Seq<char>, args: Seq<char>) -> Seq<char> {
    "hl.dsp."@ + action + "(\""@ + args + "\")"@
}

/// A binding to install for keys `keys` running dispatcher `action` with
/// `args`.
pub fn hypr_key_binding(keys: &str, action: &str, args: &str, description: Option<&str>) -> (r:
    HyprKeyBinding)
    ensures
        r.keys@ == keys@,
        r.action matches HyprAction::CustomLua(code) && code@ == dsp_call(action@, args@),
        r.description matches Some(d) ==> description matches Some(x) && d@ == x@,
        r.description is None <==> description is None,
{
    let mut lua = concat3("hl.dsp.", action, "(\"");
    push_str(&mut lua, args);
    push_str(&mut lua, "\")");
    let mut binding = HyprKeyBinding::new(keys, HyprAction::CustomLua(lua));
    match description {
        Some(desc) => {
            binding = binding.with_description(desc);
        },
        None => {},
    }
    binding
}

/// Whether baseline binding `x` is made from record `b`: the record has a
/// key, its formatted combo parses to `x`'s combo, and dispatcher,
/// argument and description carry over.
pub open spec fn made_from(x: BaselineBinding, b: HyprBind) -> bool {
    &&& b.key@.len() != 0
    &&& spec_parse_combo(
        crate::text::join(crate::hypr::mask_names(b.modmask, false).push(b.key@), " + "@),
    ) == Some(x.key_combo@)
    &&& x.dispatcher@ == b.dispatcher@
    &&& x.args@ == b.arg@
    &&& opt_view(x.description) == Some(b.description@)
}

/// Whether `x` is made from some record of `raw`.
pub open spec fn has_source(x: BaselineBinding, raw: Seq<HyprBind>) -> bool {
    exists|j: int| 0 <= j < raw.len() && #[trigger] made_from(x, raw[j])
}

/// The baseline bindings read from the compositor's records, in order:
/// each record whose formatted combo parses becomes a baseline binding
/// (with its description); the others are left out.
pub fn baseline_from_binds(raw: &Vec<HyprBind>) -> (r: Vec<BaselineBinding>)
    ensures
        r@.len() <= raw@.len(),
        forall|i: int| 0 <= i < r@.len() ==> has_source(#[trigger] r@[i], raw@),
        forall|j: int|
            #![trigger raw@[j]]
            0 <= j < raw@.len() && raw@[j].key@.len() != 0 && spec_parse_combo(
                crate::text::join(crate::hypr::mask_names(raw@[j].modmask, false).push(raw@[j].key@), " + "@),
            ) is Some ==> exists|i: int| 0 <= i < r@.len() && #[trigger] made_from(r@[i], raw@[j]),
{
    let mut out: Vec<BaselineBinding> = Vec::new();
    let mut i: usize = 0;
    while i < raw.len()
        invariant
            i <= raw@.len(),
            out@.len() <= i,
            forall|k: int| 0 <= k < out@.len() ==> has_source(#[trigger] out@[k], raw@),
            forall|j: int|
                #![trigger raw@[j]]
                0 <= j < i && raw@[j].key@.len() != 0 && spec_parse_combo(
                    crate::text::join(crate::hypr::mask_names(raw@[j].modmask, false).push(raw@[j].key@), " + "@),
                ) is Some ==> exists|k: int| 0 <= k < out@.len() && #[trigger] made_from(out@[k], raw@[j]),
        decreases raw@.len() - i,
    {
        let b = &raw[i];
        let ghost before = out@;
        let candidate: Option<BaselineBinding> = match b.formatted_combo() {
            Some(text) => match KeyCombo::parse(text.as_str()) {
                Ok(combo) => Some(
                    BaselineBinding {
                        key_combo: combo,
                        dispatcher: b.dispatcher.clone(),
                        args: b.arg.clone(),
                        description: Some(b.description.clone()),
                    },
                ),
                Err(_) => None,
            },
            None => None,
        };
        assert(candidate matches Some(x) ==> made_from(x, raw@[i as int]));
        assert(candidate is None ==> !(raw@[i as int].key@.len() != 0 && spec_parse_combo(
            crate::text::join(crate::hypr::mask_names(raw@[i as int].modmask, false).push(raw@[i as int].key@), " + "@),
        ) is Some));
        match candidate {
            Some(x) => {
                out.push(x);
            },
            None => {},
        }
        proof {
            assert forall|k: int| 0 <= k < out@.len() implies has_source(#[trigger] out@[k], raw@) by {
                if k < before.len() {
                    assert(out@[k] == before[k]);
                } else {
                    assert(made_from(out@[k], raw@[i as int]));
                }
            }
            assert forall|j: int|
                #![trigger raw@[j]]
                0 <= j < i + 1 && raw@[j].key@.len() != 0 && spec_parse_combo(
                    crate::text::join(crate::hypr::mask_names(raw@[j].modmask, false).push(raw@[j].key@), " + "@),
                ) is Some implies exists|k: int| 0 <= k < out@.len() && #[trigger] made_from(out@[k], raw@[j]) by {
                if j < i {
                    let k = choose|k: int| 0 <= k < before.len() && #[trigger] made_from(before[k], raw@[j]);
                    assert(out@[k] == before[k]);
                } else {
                    assert(made_from(out@[before.len() as int], raw@[j]));
                }
            }
        }
        i = i + 1;
    }
    out
}

/// What applying a plan sends: the canonical text of each combo to
/// unbind, and a binding for each binding to install (its dispatcher as a
/// Lua call).
pub fn plan_batch(plan: &SwitchPlan) -> (r: (Vec<String>, Vec<HyprKeyBinding>))
    ensures
        r.0@.len() == plan.unbind@.len(),
        forall|i: int| 0 <= i < r.0@.len() ==> #[trigger] r.0@[i]@ == canonical(plan.unbind@[i]@),
        r.1@.len() == plan.bind@.len(),
        forall|i: int|
            0 <= i < r.1@.len() ==> {
                let b = plan.bind@[i];
                let d = dispatcher_of(b.action@);
                &&& (#[trigger] r.1@[i]).keys@ == canonical(b.key_combo@)
                &&& r.1@[i].action matches HyprAction::CustomLua(code) && code@ == dsp_call(d.0, d.1)
                &&& opt_view(r.1@[i].description) == opt_view(b.description)
            },
{
    let mut unbinds: Vec<String> = Vec::new();
    let mut i: usize = 0;
    while i < plan.unbind.len()
        invariant
            i <= plan.unbind@.len(),
            unbinds@.len() == i,
            forall|k: int| 0 <= k < i ==> #[trigger] unbinds@[k]@ == canonical(plan.unbind@[k]@),
        decreases plan.unbind@.len() - i,
    {
        unbinds.push(plan.unbind[i].canonical_str());
        i = i + 1;
    }
    let mut binds: Vec<HyprKeyBinding> = Vec::new();
    let mut k: usize = 0;
    while k < plan.bind.len()
        invariant
            k <= plan.bind@.len(),
            binds@.len() == k,
            forall|m: int|
                0 <= m < k ==> {
                    let b = plan.bind@[m];
                    let d = dispatcher_of(b.action@);
                    &&& (#[trigger] binds@[m]).keys@ == canonical(b.key_combo@)
                    &&& binds@[m].action matches HyprAction::CustomLua(code) && code@ == dsp_call(
                        d.0,
                        d.1,
                    )
                    &&& opt_view(binds@[m].description) == opt_view(b.description)
                },
        decreases plan.bind@.len() - k,
    {
        let b = &plan.bind[k];
        let keys = b.key_combo.canonical_str();
        let (disp, args) = b.action.to_hyprland_dispatcher();
        let desc: Option<&str> = match &b.description {
            Some(d) => Some(d.as_str()),
            None => None,
        };
        binds.push(hypr_key_binding(keys.as_str(), disp.as_str(), args.as_str(), desc));
        k = k + 1;
    }
    (unbinds, binds)
}

} // verus!
