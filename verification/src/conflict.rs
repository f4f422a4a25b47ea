//! Arbitration between profile bindings and protected baseline bindings.
use vstd::prelude::*;

use crate::binding::{clone_opt, opt_view, Action, ActionView, Binding, KeyCombo};
use crate::profile_metadata::ConflictPolicy;
use crate::state::{BaselineBinding, BaselineView, SwitchPlan};
use crate::text::{ascii_lower, ascii_lower_chars, lemma_lower_of_lowercase, chars_of, chars_start_with, has_prefix, owned, str_eq, string_of};

verus! {

#[derive(Debug, Clone, Copy, PartialEq, Eq, Structural)]
pub enum BindingClassification {
    New,
    Identical,
    Conflict,
}

#[derive(Debug, Clone, Copy, PartialEq, Eq, Structural)]
pub enum BindingDecision {
    Applied,
    Skipped,
    Forced,
}

/// One arbitration record of a switch.
#[derive(Debug, Clone, PartialEq, Eq)]
pub struct ConflictEntry {
    pub key_combo: String,
    pub baseline_dispatcher: Option<String>,
    pub baseline_args: Option<String>,
    pub target_action: Option<Action>,
    pub classification: BindingClassification,
    pub decision: BindingDecision,
    pub reason: String,
}

/// The abstract value of a conflict entry.
pub struct EntryView {
    pub key_combo: Seq<char>,
    pub baseline_dispatcher: Option<Seq<char>>,
    pub baseline_args: Option<Seq<char>>,
    pub target_action: Option<ActionView>,
    pub classification: BindingClassification,
    pub decision: BindingDecision,
    pub reason: Seq<char>,
}

pub open spec fn opt_action_view(o: Option<Action>) -> Option<ActionView> {
    match o {
        Some(a) => Some(a@),
        None => None,
    }
}

impl View for ConflictEntry {
    type V = EntryView;

    open spec fn view(&self) -> EntryView {
        EntryView {
            key_combo: self.key_combo@,
            baseline_dispatcher: opt_view(self.baseline_dispatcher),
            baseline_args: opt_view(self.baseline_args),
            target_action: opt_action_view(self.target_action),
            classification: self.classification,
            decision: self.decision,
            reason: self.reason@,
        }
    }
}

impl ConflictEntry {
    /// A copy of this entry.
    pub fn duplicate(&self) -> (r: ConflictEntry)
        ensures
            r@ == self@,
    {
        ConflictEntry {
            key_combo: self.key_combo.clone(),
            baseline_dispatcher: clone_opt(&self.baseline_dispatcher),
            baseline_args: clone_opt(&self.baseline_args),
            target_action: match &self.target_action {
                Some(a) => Some(a.duplicate()),
                None => None,
            },
            classification: self.classification,
            decision: self.decision,
            reason: self.reason.clone(),
        }
    }
}

/// The abstract values of a list of entries.
pub open spec fn entry_views(s: Seq<ConflictEntry>) -> Seq<EntryView> {
    s.map_values(|e: ConflictEntry| e@)
}

/// All arbitration records of a switch, with the number of each decision.
#[derive(Debug, Clone, PartialEq, Eq)]
pub struct ConflictReport {
    pub entries: Vec<ConflictEntry>,
    pub applied: usize,
    pub skipped: usize,
    pub forced: usize,
}

impl Default for ConflictReport {
    fn default() -> (r: ConflictReport)
        ensures
            r.entries@.len() == 0,
            r.applied == 0,
            r.skipped == 0,
            r.forced == 0,
    {
        ConflictReport { entries: Vec::new(), applied: 0, skipped: 0, forced: 0 }
    }
}

impl ConflictReport {
    /// A copy of this report.
    pub fn duplicate(&self) -> (r: ConflictReport)
        ensures
            entry_views(r.entries@) == entry_views(self.entries@),
            r.applied == self.applied,
            r.skipped == self.skipped,
            r.forced == self.forced,
    {
        let mut entries: Vec<ConflictEntry> = Vec::new();
        let mut i: usize = 0;
        while i < self.entries.len()
            invariant
                i <= self.entries@.len(),
                entries@.len() == i,
                forall|j: int| 0 <= j < i ==> #[trigger] entries@[j]@ == self.entries@[j]@,
            decreases self.entries@.len() - i,
        {
            entries.push(self.entries[i].duplicate());
            i = i + 1;
        }
        assert(entry_views(entries@) =~= entry_views(self.entries@));
        ConflictReport { entries, applied: self.applied, skipped: self.skipped, forced: self.forced }
    }
}

/// A switch plan together with its arbitration report.
#[derive(Debug, Clone, PartialEq, Eq)]
pub struct ResolvedSwitchPlan {
    pub plan: SwitchPlan,
    pub report: ConflictReport,
}

#[derive(Debug, Clone, Copy, PartialEq, Eq, Hash, Structural)]
pub enum SemanticFamily {
    Close,
    MaximizeRestore,
    Float,
    WindowMotion,
    WorkspaceNavigation,
    LauncherSpecial,
    ExecCustom,
}

/// The kind of effect an action has.
pub open spec fn action_family(a: ActionView) -> SemanticFamily {
    match a {
        ActionView::CloseWindow => SemanticFamily::Close,
        ActionView::Maximize | ActionView::Restore | ActionView::Fullscreen => SemanticFamily::MaximizeRestore,
        ActionView::FloatToggle => SemanticFamily::Float,
        ActionView::SnapLeft | ActionView::SnapRight | ActionView::CycleWindowNext
        | ActionView::CycleWindowPrev => SemanticFamily::WindowMotion,
        ActionView::WorkspaceNext | ActionView::WorkspacePrev | ActionView::MoveToWorkspaceNext
        | ActionView::MoveToWorkspacePrev => SemanticFamily::WorkspaceNavigation,
        ActionView::ToggleSpecialWorkspace(_) | ActionView::ToggleLauncher(_) => SemanticFamily::LauncherSpecial,
        ActionView::Exec(_) | ActionView::Plugin(_) | ActionView::Custom { .. } => SemanticFamily::ExecCustom,
    }
}

/// The kind of effect a compositor dispatcher has (by its ASCII-lower-cased
/// name).
pub open spec fn dispatcher_family(dispatcher: Seq<char>) -> SemanticFamily {
    let l = ascii_lower(dispatcher);
    if l == "killactive"@ || l == "closewindow"@ {
        SemanticFamily::Close
    } else if l == "fullscreen"@ {
        SemanticFamily::MaximizeRestore
    } else if l == "togglefloating"@ || l == "float"@ {
        SemanticFamily::Float
    } else if l == "movewindow"@ || l == "movefocus"@ {
        SemanticFamily::WindowMotion
    } else if l == "workspace"@ || l == "movetoworkspace"@ || l == "movetoworkspacesilent"@ {
        SemanticFamily::WorkspaceNavigation
    } else if l == "exec"@ {
        SemanticFamily::ExecCustom
    } else if has_prefix(l, "toggle"@) || has_prefix(l, "special"@) {
        SemanticFamily::LauncherSpecial
    } else {
        SemanticFamily::ExecCustom
    }
}

/// How a target action is arbitrated against the protected baseline binding
/// of its combo (if any) under a policy.
pub open spec fn resolution(
    base: Option<BaselineView>,
    target: ActionView,
    policy: ConflictPolicy,
) -> (BindingClassification, BindingDecision, Seq<char>) {
    match base {
        None => (BindingClassification::New, BindingDecision::Applied, "no protected baseline binding"@),
        Some(b) => if (b.dispatcher, b.args) == crate::binding::dispatcher_of(target) {
            (
                BindingClassification::Identical,
                BindingDecision::Skipped,
                "target action is identical to protected baseline"@,
            )
        } else if policy == ConflictPolicy::Force {
            (
                BindingClassification::Conflict,
                BindingDecision::Forced,
                "force policy overrides protected baseline"@,
            )
        } else if policy == ConflictPolicy::Smart && action_family(target) == dispatcher_family(
            b.dispatcher,
        ) {
            (
                BindingClassification::Conflict,
                BindingDecision::Forced,
                "smart policy allows same-family override"@,
            )
        } else {
            (
                BindingClassification::Conflict,
                BindingDecision::Skipped,
                "protected baseline binding preserved"@,
            )
        },
    }
}

pub fn action_semantic_family(action: &Action) -> (r: SemanticFamily)
    ensures
        r == action_family(action@),
{
    match action {
        Action::CloseWindow => SemanticFamily::Close,
        Action::Maximize | Action::Restore | Action::Fullscreen => SemanticFamily::MaximizeRestore,
        Action::FloatToggle => SemanticFamily::Float,
        Action::SnapLeft | Action::SnapRight => SemanticFamily::WindowMotion,
        Action::CycleWindowNext | Action::CycleWindowPrev => SemanticFamily::WindowMotion,
        Action::WorkspaceNext | Action::WorkspacePrev | Action::MoveToWorkspaceNext
        | Action::MoveToWorkspacePrev => SemanticFamily::WorkspaceNavigation,
        Action::ToggleSpecialWorkspace(_) | Action::ToggleLauncher(_) => SemanticFamily::LauncherSpecial,
        Action::Exec(_) | Action::Plugin(_) | Action::Custom { .. } => SemanticFamily::ExecCustom,
    }
}

pub fn baseline_semantic_family(dispatcher: &str, _args: &str) -> (r: SemanticFamily)
    ensures
        r == dispatcher_family(dispatcher@),
{
    let chars = chars_of(dispatcher);
    let lower = ascii_lower_chars(&chars);
    let ls = string_of(&lower);
    let l = ls.as_str();
    if str_eq(l, "killactive") || str_eq(l, "closewindow") {
        SemanticFamily::Close
    } else if str_eq(l, "fullscreen") {
        SemanticFamily::MaximizeRestore
    } else if str_eq(l, "togglefloating") || str_eq(l, "float") {
        SemanticFamily::Float
    } else if str_eq(l, "movewindow") || str_eq(l, "movefocus") {
        SemanticFamily::WindowMotion
    } else if str_eq(l, "workspace") || str_eq(l, "movetoworkspace") || str_eq(
        l,
        "movetoworkspacesilent",
    ) {
        SemanticFamily::WorkspaceNavigation
    } else if str_eq(l, "exec") {
        SemanticFamily::ExecCustom
    } else if chars_start_with(&lower, "toggle") || chars_start_with(&lower, "special") {
        SemanticFamily::LauncherSpecial
    } else {
        SemanticFamily::ExecCustom
    }
}

pub open spec fn opt_base_view(b: Option<&BaselineBinding>) -> Option<BaselineView> {
    match b {
        Some(x) => Some(x@),
        None => None,
    }
}

/// Arbitrates a target binding against the protected baseline binding of
/// its combo under `policy`: no baseline means the binding is new and
/// applied; an identical baseline is skipped; a different one is forced
/// under `Force`, forced under `Smart` when both act in the same family,
/// and otherwise preserved.
pub fn resolve_for_policy(
    _combo: &KeyCombo,
    baseline: Option<&BaselineBinding>,
    target: &Binding,
    policy: ConflictPolicy,
) -> (r: (BindingClassification, BindingDecision, String))
    ensures
        (r.0, r.1, r.2@) == resolution(opt_base_view(baseline), target.action@, policy),
{
    let base = match baseline {
        None => {
            return (
                BindingClassification::New,
                BindingDecision::Applied,
                owned("no protected baseline binding"),
            );
        },
        Some(b) => b,
    };
    let (d, a) = target.action.to_hyprland_dispatcher();
    if str_eq(base.dispatcher.as_str(), d.as_str()) && str_eq(base.args.as_str(), a.as_str()) {
        return (
            BindingClassification::Identical,
            BindingDecision::Skipped,
            owned("target action is identical to protected baseline"),
        );
    }
    if policy == ConflictPolicy::Force {
        return (
            BindingClassification::Conflict,
            BindingDecision::Forced,
            owned("force policy overrides protected baseline"),
        );
    }
    let same_family = action_semantic_family(&target.action) == baseline_semantic_family(
        base.dispatcher.as_str(),
        base.args.as_str(),
    );
    if policy == ConflictPolicy::Smart && same_family {
        (
            BindingClassification::Conflict,
            BindingDecision::Forced,
            owned("smart policy allows same-family override"),
        )
    } else {
        (
            BindingClassification::Conflict,
            BindingDecision::Skipped,
            owned("protected baseline binding preserved"),
        )
    }
}


/// A combo without a protected baseline binding is always applied as new.
pub proof fn law_unprotected_is_applied(target: ActionView, policy: ConflictPolicy)
    ensures
        resolution(None, target, policy).0 == BindingClassification::New,
        resolution(None, target, policy).1 == BindingDecision::Applied,
{
}

/// The strict policy never overrides a protected baseline binding.
pub proof fn law_strict_never_forces(base: Option<BaselineView>, target: ActionView)
    ensures
        resolution(base, target, ConflictPolicy::Strict).1 != BindingDecision::Forced,
{
}

/// The force policy overrides every protected baseline binding that differs
/// from the target.
pub proof fn law_force_overrides_differing(b: BaselineView, target: ActionView)
    requires
        (b.dispatcher, b.args) != crate::binding::dispatcher_of(target),
    ensures
        resolution(Some(b), target, ConflictPolicy::Force).0 == BindingClassification::Conflict,
        resolution(Some(b), target, ConflictPolicy::Force).1 == BindingDecision::Forced,
{
}

/// A target identical to its baseline is skipped under every policy.
pub proof fn law_identical_is_skipped(b: BaselineView, target: ActionView, policy: ConflictPolicy)
    requires
        (b.dispatcher, b.args) == crate::binding::dispatcher_of(target),
    ensures
        resolution(Some(b), target, policy).0 == BindingClassification::Identical,
        resolution(Some(b), target, policy).1 == BindingDecision::Skipped,
{
}

/// The smart policy overrides a differing baseline exactly when both act in
/// the same family.
pub proof fn law_smart_overrides_same_family(b: BaselineView, target: ActionView)
    requires
        (b.dispatcher, b.args) != crate::binding::dispatcher_of(target),
    ensures
        (resolution(Some(b), target, ConflictPolicy::Smart).1 == BindingDecision::Forced)
            == (action_family(target) == dispatcher_family(b.dispatcher)),
{
}

/// An action and the dispatcher it compiles to fall into the same semantic
/// family, for every action but window cycling (whose dispatchers name no
/// family), the launcher toggle (an `exec` of the launcher) and custom
/// dispatchers (which may name anything).
pub proof fn law_action_and_its_dispatcher_share_family(a: ActionView)
    requires
        !(a is CycleWindowNext),
        !(a is CycleWindowPrev),
        !(a is ToggleLauncher),
        !(a is Custom),
    ensures
        action_family(a) == dispatcher_family(crate::binding::dispatcher_of(a).0),
{
    reveal_strlit("killactive");
    reveal_strlit("closewindow");
    reveal_strlit("fullscreen");
    reveal_strlit("togglefloating");
    reveal_strlit("float");
    reveal_strlit("movewindow");
    reveal_strlit("movefocus");
    reveal_strlit("workspace");
    reveal_strlit("movetoworkspace");
    reveal_strlit("movetoworkspacesilent");
    reveal_strlit("exec");
    reveal_strlit("toggle");
    reveal_strlit("togglespecialworkspace");
    let d = crate::binding::dispatcher_of(a).0;
    lemma_lower_of_lowercase(d);
    let earlier: Seq<Seq<char>> = seq![
        "killactive"@,
        "closewindow"@,
        "fullscreen"@,
        "togglefloating"@,
        "float"@,
        "movewindow"@,
        "movefocus"@,
        "workspace"@,
        "movetoworkspace"@,
        "movetoworkspacesilent"@,
        "exec"@,
    ];
    match a {
        ActionView::CloseWindow => {},
        ActionView::Maximize | ActionView::Restore | ActionView::Fullscreen => {
            assert(d[0] != "killactive"@[0]);
            assert(d.len() != "closewindow"@.len());
        },
        ActionView::FloatToggle => {
            assert(d.len() != "killactive"@.len());
            assert(d.len() != "closewindow"@.len());
            assert(d.len() != "fullscreen"@.len());
        },
        ActionView::SnapLeft | ActionView::SnapRight => {
            assert(d[0] != "killactive"@[0]);
            assert(d.len() != "closewindow"@.len());
            assert(d[0] != "fullscreen"@[0]);
            assert(d.len() != "togglefloating"@.len());
            assert(d.len() != "float"@.len());
            assert(d.len() != "movewindow"@.len());
        },
        ActionView::WorkspaceNext | ActionView::WorkspacePrev => {
            assert(d.len() != "killactive"@.len());
            assert(d.len() != "closewindow"@.len());
            assert(d.len() != "fullscreen"@.len());
            assert(d.len() != "togglefloating"@.len());
            assert(d.len() != "float"@.len());
            assert(d.len() != "movewindow"@.len());
            assert(d[0] != "movefocus"@[0]);
        },
        ActionView::MoveToWorkspaceNext | ActionView::MoveToWorkspacePrev => {
            assert(d.len() != "killactive"@.len());
            assert(d.len() != "closewindow"@.len());
            assert(d.len() != "fullscreen"@.len());
            assert(d.len() != "togglefloating"@.len());
            assert(d.len() != "float"@.len());
            assert(d.len() != "movewindow"@.len());
            assert(d.len() != "movefocus"@.len());
            assert(d.len() != "workspace"@.len());
        },
        ActionView::ToggleSpecialWorkspace(_) => {
            assert(d.take(6) =~= "toggle"@);
            assert forall|k: int| 0 <= k < earlier.len() implies #[trigger] earlier[k] != d by {
                assert(earlier[k].len() != d.len());
            }
            assert(earlier[0] != d && earlier[1] != d && earlier[2] != d && earlier[3] != d);
            assert(earlier[4] != d && earlier[5] != d && earlier[6] != d && earlier[7] != d);
            assert(earlier[8] != d && earlier[9] != d && earlier[10] != d);
        },
        ActionView::Exec(_) | ActionView::Plugin(_) => {
            assert forall|k: int| 0 <= k < 10 implies #[trigger] earlier[k] != d by {
                assert(earlier[k].len() != d.len());
            }
            assert(earlier[0] != d && earlier[1] != d && earlier[2] != d && earlier[3] != d);
            assert(earlier[4] != d && earlier[5] != d && earlier[6] != d && earlier[7] != d);
            assert(earlier[8] != d && earlier[9] != d);
        },
        _ => {},
    }
}

/// Under the strict policy a protected baseline binding is never replaced:
/// whatever the target, a combo that has one is skipped.
pub proof fn law_strict_keeps_every_protected_binding(b: BaselineView, target: ActionView)
    ensures
        resolution(Some(b), target, ConflictPolicy::Strict).1 == BindingDecision::Skipped,
{
}

/// A combo with a protected baseline binding is never applied as if it were
/// free, under any policy: it is either skipped or explicitly forced.
pub proof fn law_protected_binding_is_never_plainly_applied(
    b: BaselineView,
    target: ActionView,
    policy: ConflictPolicy,
)
    ensures
        resolution(Some(b), target, policy).1 != BindingDecision::Applied,
        resolution(Some(b), target, policy).0 != BindingClassification::New,
{
}

/// Under the smart policy a differing baseline binding of another family
/// is kept: the combo is a conflict and is skipped.
pub proof fn law_smart_keeps_other_family(b: BaselineView, target: ActionView)
    requires
        (b.dispatcher, b.args) != crate::binding::dispatcher_of(target),
        action_family(target) != dispatcher_family(b.dispatcher),
    ensures
        resolution(Some(b), target, ConflictPolicy::Smart).0 == BindingClassification::Conflict,
        resolution(Some(b), target, ConflictPolicy::Smart).1 == BindingDecision::Skipped,
{
}

} // verus!
