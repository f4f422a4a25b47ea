//! The profile state manager: profiles, active overlays, protected baseline
//! bindings and the switch/restore planner.
use vstd::prelude::*;

use crate::binding::{
    canonical, clone_opt, opt_view, Action, ActionView, Binding, BindingView, ComboView, KeyCombo,
};
use crate::conflict::{
    resolution, resolve_for_policy, BindingClassification, BindingDecision, ConflictEntry,
    ConflictReport, EntryView, ResolvedSwitchPlan,
};
use crate::error::CoreError;
use crate::keyed::{
    distinct_keys, insert_sorted_keyed, keyed_map, lemma_insert_at, lemma_keyed_dom,
    lemma_keyed_val, lookup, sorted_by_key, upsert, ComboMap, Keyed, SortKey,
};
use crate::profile::Profile;
use crate::profile_metadata::ConflictPolicy;
use crate::protocol::{HistoryEntry, WindowPolicy};
use crate::text::{
    chars_lt, chars_of, concat3, has_prefix, lemma_seq_lt_irreflexive, lemma_seq_lt_total,
    lemma_seq_lt_asym, lemma_seq_lt_trans, owned, seq_lt, starts_with, str_eq,
};

verus! {

/// What to unbind and what to bind to reach a target profile.
#[derive(Debug, Clone, PartialEq, Eq)]
pub struct SwitchPlan {
    pub target_profile: String,
    pub unbind: Vec<KeyCombo>,
    pub bind: Vec<Binding>,
}

impl SwitchPlan {
    pub fn is_empty(&self) -> (r: bool)
        ensures
            r == (self.unbind@.len() == 0 && self.bind@.len() == 0),
    {
        self.unbind.len() == 0 && self.bind.len() == 0
    }
}

/// A binding found in the compositor before any overlay was applied.
#[derive(Debug, Clone, PartialEq, Eq)]
pub struct BaselineBinding {
    pub key_combo: KeyCombo,
    pub dispatcher: String,
    pub args: String,
    pub description: Option<String>,
}

/// The abstract value of a baseline binding.
pub struct BaselineView {
    pub key_combo: ComboView,
    pub dispatcher: Seq<char>,
    pub args: Seq<char>,
    pub description: Option<Seq<char>>,
}

impl View for BaselineBinding {
    type V = BaselineView;

    open spec fn view(&self) -> BaselineView {
        BaselineView {
            key_combo: self.key_combo@,
            dispatcher: self.dispatcher@,
            args: self.args@,
            description: opt_view(self.description),
        }
    }
}

/// Whether a baseline binding was placed by this daemon (its description
/// starts with `AetherShift:`).
pub open spec fn is_owned(b: BaselineView) -> bool {
    match b.description {
        Some(d) => has_prefix(d, "AetherShift:"@),
        None => false,
    }
}

/// The binding that re-creates a baseline binding.
pub open spec fn baseline_as_binding(b: BaselineView) -> BindingView {
    BindingView {
        key_combo: b.key_combo,
        action: ActionView::Custom { dispatcher: b.dispatcher, args: b.args },
        description: None,
    }
}

impl BaselineBinding {
    pub fn is_aethershift_owned(&self) -> (r: bool)
        ensures
            r == is_owned(self@),
    {
        match &self.description {
            Some(d) => starts_with(d.as_str(), "AetherShift:"),
            None => false,
        }
    }

    pub fn to_binding(&self) -> (r: Binding)
        ensures
            r@ == baseline_as_binding(self@),
    {
        Binding::new(
            self.key_combo.duplicate(),
            Action::Custom { dispatcher: self.dispatcher.clone(), args: self.args.clone() },
        )
    }

    /// A copy of this baseline binding.
    pub fn duplicate(&self) -> (r: BaselineBinding)
        ensures
            r@ == self@,
    {
        BaselineBinding {
            key_combo: self.key_combo.duplicate(),
            dispatcher: self.dispatcher.clone(),
            args: self.args.clone(),
            description: match &self.description {
                Some(d) => Some(d.clone()),
                None => None,
            },
        }
    }
}

/// Information about a known profile.
#[derive(Debug, Clone, PartialEq, Eq)]
pub struct ProfileInfo {
    pub name: String,
    pub description: String,
    pub bindings_count: usize,
    pub is_active: bool,
}


// ---------------------------------------------------------------------------
// Keys and sort orders of the planner's items
// ---------------------------------------------------------------------------

impl Keyed for KeyCombo {
    open spec fn key_view(v: ComboView) -> ComboView {
        v
    }

    fn combo(&self) -> (r: &KeyCombo) {
        self
    }
}

impl Keyed for Binding {
    open spec fn key_view(v: BindingView) -> ComboView {
        v.key_combo
    }

    fn combo(&self) -> (r: &KeyCombo) {
        &self.key_combo
    }
}

impl Keyed for BaselineBinding {
    open spec fn key_view(v: BaselineView) -> ComboView {
        v.key_combo
    }

    fn combo(&self) -> (r: &KeyCombo) {
        &self.key_combo
    }
}

impl SortKey for KeyCombo {
    open spec fn sort_key(v: ComboView) -> Seq<char> {
        canonical(v)
    }

    fn key_text(&self) -> (r: Vec<char>) {
        let s = self.canonical_str();
        chars_of(s.as_str())
    }
}

impl SortKey for Binding {
    open spec fn sort_key(v: BindingView) -> Seq<char> {
        canonical(v.key_combo)
    }

    fn key_text(&self) -> (r: Vec<char>) {
        let s = self.key_combo.canonical_str();
        chars_of(s.as_str())
    }
}

impl SortKey for ConflictEntry {
    open spec fn sort_key(v: EntryView) -> Seq<char> {
        v.key_combo
    }

    fn key_text(&self) -> (r: Vec<char>) {
        chars_of(self.key_combo.as_str())
    }
}

/// A report entry together with the combo it was made for.
struct TaggedEntry {
    combo: KeyCombo,
    entry: ConflictEntry,
}

impl View for TaggedEntry {
    type V = (ComboView, EntryView);

    closed spec fn view(&self) -> (ComboView, EntryView) {
        (self.combo@, self.entry@)
    }
}

impl Keyed for TaggedEntry {
    open spec fn key_view(v: (ComboView, EntryView)) -> ComboView {
        v.0
    }

    fn combo(&self) -> (r: &KeyCombo) {
        &self.combo
    }
}

impl SortKey for TaggedEntry {
    open spec fn sort_key(v: (ComboView, EntryView)) -> Seq<char> {
        v.1.key_combo
    }

    fn key_text(&self) -> (r: Vec<char>) {
        chars_of(self.entry.key_combo.as_str())
    }
}

// ---------------------------------------------------------------------------
// The planner's specification
// ---------------------------------------------------------------------------

/// The protected baseline binding of a combo, if any.
pub open spec fn base_at(b: Map<ComboView, BaselineView>, c: ComboView) -> Option<BaselineView> {
    if b.contains_key(c) {
        Some(b[c])
    } else {
        None
    }
}

/// Arbitration of the target binding of `c` against its baseline.
pub open spec fn target_res(
    t: Map<ComboView, BindingView>,
    b: Map<ComboView, BaselineView>,
    policy: ConflictPolicy,
    c: ComboView,
) -> (BindingClassification, BindingDecision, Seq<char>) {
    resolution(base_at(b, c), t[c].action, policy)
}

/// Whether a switch from overlays `o` to target bindings `t` (with baseline
/// `b`) unbinds `c`: an own overlay that the target drops or changes, or a
/// baseline binding that the target overrides.
pub open spec fn plan_unbinds(
    o: Map<ComboView, BindingView>,
    t: Map<ComboView, BindingView>,
    b: Map<ComboView, BaselineView>,
    policy: ConflictPolicy,
    c: ComboView,
) -> bool {
    if o.contains_key(c) {
        !t.contains_key(c) || t[c].action != o[c].action
    } else {
        t.contains_key(c) && target_res(t, b, policy, c).0 == BindingClassification::Conflict
            && target_res(t, b, policy, c).1 != BindingDecision::Skipped
    }
}

/// Whether such a switch binds the target binding of `c`: it changes an own
/// overlay, or arbitration lets it through.
pub open spec fn plan_binds(
    o: Map<ComboView, BindingView>,
    t: Map<ComboView, BindingView>,
    b: Map<ComboView, BaselineView>,
    policy: ConflictPolicy,
    c: ComboView,
) -> bool {
    t.contains_key(c) && if o.contains_key(c) {
        t[c].action != o[c].action
    } else {
        target_res(t, b, policy, c).0 != BindingClassification::Identical && target_res(
            t,
            b,
            policy,
            c,
        ).1 != BindingDecision::Skipped
    }
}

pub open spec fn overlay_entry(
    c: ComboView,
    target: Option<ActionView>,
    cls: BindingClassification,
    dec: BindingDecision,
    reason: Seq<char>,
) -> EntryView {
    EntryView {
        key_combo: canonical(c),
        baseline_dispatcher: None,
        baseline_args: None,
        target_action: target,
        classification: cls,
        decision: dec,
        reason,
    }
}

/// The report entry of such a switch for `c`.
pub open spec fn plan_entry(
    o: Map<ComboView, BindingView>,
    t: Map<ComboView, BindingView>,
    b: Map<ComboView, BaselineView>,
    policy: ConflictPolicy,
    c: ComboView,
) -> EntryView {
    if o.contains_key(c) {
        if !t.contains_key(c) {
            overlay_entry(
                c,
                None,
                BindingClassification::New,
                BindingDecision::Applied,
                "removing previous AetherShift overlay"@,
            )
        } else if t[c].action != o[c].action {
            overlay_entry(
                c,
                Some(t[c].action),
                BindingClassification::New,
                BindingDecision::Applied,
                "replacing previous AetherShift overlay"@,
            )
        } else {
            overlay_entry(
                c,
                Some(t[c].action),
                BindingClassification::Identical,
                BindingDecision::Skipped,
                "identical AetherShift overlay"@,
            )
        }
    } else {
        let r = target_res(t, b, policy, c);
        EntryView {
            key_combo: canonical(c),
            baseline_dispatcher: match base_at(b, c) {
                Some(x) => Some(x.dispatcher),
                None => None,
            },
            baseline_args: match base_at(b, c) {
                Some(x) => Some(x.args),
                None => None,
            },
            target_action: Some(t[c].action),
            classification: r.0,
            decision: r.1,
            reason: r.2,
        }
    }
}

/// Number of report entries with decision `d`.
pub open spec fn count_decision(s: Seq<ConflictEntry>, d: BindingDecision) -> nat
    decreases s.len(),
{
    if s.len() == 0 {
        0
    } else {
        count_decision(s.drop_last(), d) + if s.last().decision == d {
            1nat
        } else {
            0nat
        }
    }
}

spec fn tagged_count(s: Seq<TaggedEntry>, d: BindingDecision) -> nat
    decreases s.len(),
{
    if s.len() == 0 {
        0
    } else {
        tagged_count(s.drop_last(), d) + if s.last().entry.decision == d {
            1nat
        } else {
            0nat
        }
    }
}

proof fn lemma_tagged_count_le(s: Seq<TaggedEntry>, d: BindingDecision)
    ensures
        tagged_count(s, d) <= s.len(),
    decreases s.len(),
{
    if s.len() > 0 {
        lemma_tagged_count_le(s.drop_last(), d);
    }
}

proof fn lemma_tagged_count_insert(s: Seq<TaggedEntry>, p: int, x: TaggedEntry, d: BindingDecision)
    requires
        0 <= p <= s.len(),
    ensures
        tagged_count(s.insert(p, x), d) == tagged_count(s, d) + if x.entry.decision == d {
            1nat
        } else {
            0nat
        },
    decreases s.len(),
{
    if p == s.len() {
        assert(s.insert(p, x).drop_last() =~= s);
    } else {
        assert(s.insert(p, x).drop_last() =~= s.drop_last().insert(p, x));
        lemma_tagged_count_insert(s.drop_last(), p, x, d);
    }
}

/// Everything a switch plan and its report promise, for overlays `o`,
/// target bindings `t`, baseline `b` and policy `policy`.
pub open spec fn switch_result(
    o: Map<ComboView, BindingView>,
    t: Map<ComboView, BindingView>,
    b: Map<ComboView, BaselineView>,
    policy: ConflictPolicy,
    name: Seq<char>,
    res: ResolvedSwitchPlan,
) -> bool {
    let unbind = res.plan.unbind@;
    let bind = res.plan.bind@;
    let entries = res.report.entries@;
    &&& res.plan.target_profile@ == name
    &&& distinct_keys(unbind)
    &&& sorted_by_key(unbind)
    &&& forall|c: ComboView| #[trigger]
        keyed_map(unbind).contains_key(c) <==> plan_unbinds(o, t, b, policy, c)
    &&& distinct_keys(bind)
    &&& sorted_by_key(bind)
    &&& forall|c: ComboView| #[trigger]
        keyed_map(bind).contains_key(c) <==> plan_binds(o, t, b, policy, c)
    &&& forall|c: ComboView| #[trigger]
        keyed_map(bind).contains_key(c) ==> keyed_map(bind)[c] == t[c]
    &&& sorted_by_key(entries)
    &&& exists|cs: Seq<ComboView>|
        #![trigger cs.len()]
        {
            &&& cs.len() == entries.len()
            &&& forall|i: int, j: int| 0 <= i < j < cs.len() ==> cs[i] != cs[j]
            &&& forall|c: ComboView|
                cs.contains(c) <==> (#[trigger] o.contains_key(c) || t.contains_key(c))
            &&& forall|i: int|
                0 <= i < cs.len() ==> #[trigger] entries[i]@ == plan_entry(o, t, b, policy, cs[i])
        }
    &&& res.report.applied == count_decision(entries, BindingDecision::Applied)
    &&& res.report.skipped == count_decision(entries, BindingDecision::Skipped)
    &&& res.report.forced == count_decision(entries, BindingDecision::Forced)
}

/// The plan under construction.
struct PlanParts {
    unbind: Vec<KeyCombo>,
    bind: Vec<Binding>,
    tagged: Vec<TaggedEntry>,
    applied: usize,
    skipped: usize,
    forced: usize,
}

/// The parts hold exactly the plan's items for the combos in `done`.
spec fn parts_ok(
    p: PlanParts,
    o: Map<ComboView, BindingView>,
    t: Map<ComboView, BindingView>,
    b: Map<ComboView, BaselineView>,
    policy: ConflictPolicy,
    done: spec_fn(ComboView) -> bool,
) -> bool {
    &&& distinct_keys(p.unbind@)
    &&& sorted_by_key(p.unbind@)
    &&& forall|c: ComboView| #[trigger]
        keyed_map(p.unbind@).contains_key(c) <==> (done(c) && plan_unbinds(o, t, b, policy, c))
    &&& distinct_keys(p.bind@)
    &&& sorted_by_key(p.bind@)
    &&& forall|c: ComboView| #[trigger]
        keyed_map(p.bind@).contains_key(c) <==> (done(c) && plan_binds(o, t, b, policy, c))
    &&& forall|c: ComboView| #[trigger]
        keyed_map(p.bind@).contains_key(c) ==> keyed_map(p.bind@)[c] == t[c]
    &&& distinct_keys(p.tagged@)
    &&& sorted_by_key(p.tagged@)
    &&& forall|c: ComboView| #[trigger] keyed_map(p.tagged@).contains_key(c) <==> done(c)
    &&& forall|c: ComboView| #[trigger]
        keyed_map(p.tagged@).contains_key(c) ==> keyed_map(p.tagged@)[c] == (
            c,
            plan_entry(o, t, b, policy, c),
        )
    &&& p.applied == tagged_count(p.tagged@, BindingDecision::Applied)
    &&& p.skipped == tagged_count(p.tagged@, BindingDecision::Skipped)
    &&& p.forced == tagged_count(p.tagged@, BindingDecision::Forced)
}

impl PlanParts {
    fn new() -> (r: PlanParts)
        ensures
            r.unbind@.len() == 0,
            r.bind@.len() == 0,
            r.tagged@.len() == 0,
            r.applied == 0,
            r.skipped == 0,
            r.forced == 0,
    {
        PlanParts {
            unbind: Vec::new(),
            bind: Vec::new(),
            tagged: Vec::new(),
            applied: 0,
            skipped: 0,
            forced: 0,
        }
    }

    /// Adds the plan's items for combo `c`, not yet done.
    fn add(
        &mut self,
        c: &KeyCombo,
        entry: ConflictEntry,
        unbind: bool,
        bind: Option<Binding>,
        Ghost(o): Ghost<Map<ComboView, BindingView>>,
        Ghost(t): Ghost<Map<ComboView, BindingView>>,
        Ghost(b): Ghost<Map<ComboView, BaselineView>>,
        Ghost(policy): Ghost<ConflictPolicy>,
        Ghost(done): Ghost<spec_fn(ComboView) -> bool>,
    )
        requires
            parts_ok(*old(self), o, t, b, policy, done),
            !done(c@),
            entry@ == plan_entry(o, t, b, policy, c@),
            unbind == plan_unbinds(o, t, b, policy, c@),
            bind is Some == plan_binds(o, t, b, policy, c@),
            bind is Some ==> bind->0@ == t[c@] && bind->0@.key_combo == c@,
        ensures
            parts_ok(*final(self), o, t, b, policy, |x: ComboView| done(x) || x == c@),
    {
        let ghost done2 = |x: ComboView| done(x) || x == c@;
        let ghost old_tagged = self.tagged@;
        let d = entry.decision;
        let te = TaggedEntry { combo: c.duplicate(), entry };
        let pos = insert_sorted_keyed(&mut self.tagged, te);
        proof {
            lemma_tagged_count_insert(old_tagged, pos as int, self.tagged@[pos as int], BindingDecision::Applied);
            lemma_tagged_count_insert(old_tagged, pos as int, self.tagged@[pos as int], BindingDecision::Skipped);
            lemma_tagged_count_insert(old_tagged, pos as int, self.tagged@[pos as int], BindingDecision::Forced);
            lemma_tagged_count_le(old_tagged, BindingDecision::Applied);
            lemma_tagged_count_le(old_tagged, BindingDecision::Skipped);
            lemma_tagged_count_le(old_tagged, BindingDecision::Forced);
        }
        let tl = self.tagged.len();
        assert(old_tagged.len() < tl);
        match d {
            BindingDecision::Applied => {
                self.applied = self.applied + 1;
            },
            BindingDecision::Skipped => {
                self.skipped = self.skipped + 1;
            },
            BindingDecision::Forced => {
                self.forced = self.forced + 1;
            },
        }
        if unbind {
            insert_sorted_keyed(&mut self.unbind, c.duplicate());
        }
        match bind {
            Some(nb) => {
                insert_sorted_keyed(&mut self.bind, nb);
            },
            None => {},
        }
        assert(parts_ok(*self, o, t, b, policy, done2));
    }
}

// ---------------------------------------------------------------------------
// The state manager
// ---------------------------------------------------------------------------

/// Profile names in strictly increasing order.
pub open spec fn names_sorted(ps: Seq<Profile>) -> bool {
    forall|i: int, j: int| 0 <= i < j < ps.len() ==> seq_lt(#[trigger] ps[i].name@, #[trigger] ps[j].name@)
}

/// Whether some profile is named `name`.
pub open spec fn has_profile(ps: Seq<Profile>, name: Seq<char>) -> bool {
    exists|i: int| 0 <= i < ps.len() && #[trigger] ps[i].name@ == name
}

/// The index of a profile named `name` (meaningful when there is one).
pub open spec fn profile_index(ps: Seq<Profile>, name: Seq<char>) -> int {
    choose|i: int| 0 <= i < ps.len() && #[trigger] ps[i].name@ == name
}

/// The profile named `name`, if any.
pub open spec fn profile_named(ps: Seq<Profile>, name: Seq<char>) -> Option<Profile> {
    if has_profile(ps, name) {
        Some(ps[profile_index(ps, name)])
    } else {
        None
    }
}

pub proof fn lemma_profile_named(ps: Seq<Profile>, name: Seq<char>, j: int)
    requires
        names_sorted(ps),
        0 <= j < ps.len(),
        ps[j].name@ == name,
    ensures
        profile_named(ps, name) === Some(ps[j]),
        profile_index(ps, name) == j,
{
    assert(has_profile(ps, name));
    let i = profile_index(ps, name);
    lemma_seq_lt_irreflexive(name);
    if i < j {
        assert(seq_lt(ps[i].name@, ps[j].name@));
    } else if i > j {
        assert(seq_lt(ps[j].name@, ps[i].name@));
    }
}

/// The bindings a profile puts in place, keyed by combo.
pub open spec fn profile_map(p: Profile) -> Map<ComboView, BindingView> {
    keyed_map(p.bindings@)
}

/// Whether history records `h`, oldest first, carry strictly increasing
/// sequence numbers, all below `next`.
pub open spec fn history_ordered(h: Seq<HistoryEntry>, next: u64) -> bool {
    &&& forall|i: int, j: int| 0 <= i < j < h.len() ==> #[trigger] h[i].sequence < #[trigger] h[j].sequence
    &&& forall|i: int| 0 <= i < h.len() ==> #[trigger] h[i].sequence < next
}

/// Manages profiles, active overlays, baseline bindings and switch plans.
#[derive(Debug, Clone)]
pub struct StateManager {
    profiles: Vec<Profile>,
    active_profile: String,
    active_overlays: ComboMap<Binding>,
    baseline_bindings: ComboMap<BaselineBinding>,
    replaced_baseline: ComboMap<BaselineBinding>,
    last_conflict_report: ConflictReport,
    total_skipped_conflicts: usize,
    total_forced_overrides: usize,
    window_policy: WindowPolicy,
    switch_history: Vec<HistoryEntry>,
    next_history_sequence: u64,
}

impl StateManager {
    pub closed spec fn wf(&self) -> bool {
        &&& names_sorted(self.profiles@)
        &&& self.active_overlays.wf()
        &&& self.baseline_bindings.wf()
        &&& self.replaced_baseline.wf()
        &&& self.switch_history@.len() <= 256
        &&& history_ordered(self.switch_history@, self.next_history_sequence)
    }

    /// The known profiles, by increasing name.
    pub closed spec fn profile_list(&self) -> Seq<Profile> {
        self.profiles@
    }

    pub closed spec fn active_name(&self) -> Seq<char> {
        self.active_profile@
    }

    /// The daemon's own bindings in place, by combo.
    pub closed spec fn overlays(&self) -> Map<ComboView, BindingView> {
        self.active_overlays@
    }

    /// The protected baseline bindings, by combo.
    pub closed spec fn baselines(&self) -> Map<ComboView, BaselineView> {
        self.baseline_bindings@
    }

    /// Baseline bindings that an overlay displaced and a restore re-binds.
    pub closed spec fn replaced(&self) -> Map<ComboView, BaselineView> {
        self.replaced_baseline@
    }

    pub closed spec fn report(&self) -> ConflictReport {
        self.last_conflict_report
    }

    pub closed spec fn skipped_total(&self) -> usize {
        self.total_skipped_conflicts
    }

    pub closed spec fn forced_total(&self) -> usize {
        self.total_forced_overrides
    }

    pub closed spec fn policy(&self) -> WindowPolicy {
        self.window_policy
    }

    pub closed spec fn history(&self) -> Seq<HistoryEntry> {
        self.switch_history@
    }

    pub closed spec fn next_sequence(&self) -> u64 {
        self.next_history_sequence
    }

    /// A well-formed manager keeps at most 256 history records, oldest first,
    /// with strictly increasing sequence numbers below the next one.
    pub proof fn lemma_history_bound(&self)
        requires
            self.wf(),
        ensures
            self.history().len() <= 256,
            history_ordered(self.history(), self.next_sequence()),
    {
    }

    /// Index of the profile named `name`, if any.
    fn find_profile(&self, name: &str) -> (r: Option<usize>)
        requires
            self.wf(),
        ensures
            match r {
                Some(i) => i < self.profiles@.len() && self.profiles@[i as int].name@ == name@
                    && profile_named(self.profiles@, name@) === Some(self.profiles@[i as int]),
                None => profile_named(self.profiles@, name@) is None,
            },
    {
        let mut i: usize = 0;
        while i < self.profiles.len()
            invariant
                i <= self.profiles@.len(),
                names_sorted(self.profiles@),
                forall|j: int| 0 <= j < i ==> #[trigger] self.profiles@[j].name@ != name@,
            decreases self.profiles@.len() - i,
        {
            if str_eq(self.profiles[i].name.as_str(), name) {
                proof {
                    lemma_profile_named(self.profiles@, name@, i as int);
                }
                return Some(i);
            }
            i = i + 1;
        }
        None
    }

    /// Registers a profile, replacing one of the same name.
    pub fn register_profile(&mut self, profile: Profile)
        requires
            old(self).wf(),
        ensures
            final(self).wf(),
            profile_named(final(self).profile_list(), profile.name@) === Some(profile),
            forall|n: Seq<char>|
                n != profile.name@ ==> profile_named(final(self).profile_list(), n)
                    === profile_named(old(self).profile_list(), n),
            final(self).active_name() == old(self).active_name(),
            final(self).overlays() == old(self).overlays(),
            final(self).baselines() == old(self).baselines(),
            final(self).replaced() == old(self).replaced(),
            final(self).report() == old(self).report(),
            final(self).skipped_total() == old(self).skipped_total(),
            final(self).forced_total() == old(self).forced_total(),
            final(self).policy() == old(self).policy(),
            final(self).history() == old(self).history(),
            final(self).next_sequence() == old(self).next_sequence(),
    {
        let ghost s0 = self.profiles@;
        let ghost pv = profile;
        let name = chars_of(profile.name.as_str());
        let mut i: usize = 0;
        loop
            invariant
                i <= self.profiles@.len(),
                self.profiles@ == s0,
                name@ == pv.name@,
                forall|j: int| 0 <= j < i ==> seq_lt(#[trigger] s0[j].name@, name@),
            ensures
                i <= s0.len(),
                forall|j: int| 0 <= j < i ==> seq_lt(#[trigger] s0[j].name@, name@),
                i < s0.len() ==> !seq_lt(s0[i as int].name@, name@),
            decreases self.profiles@.len() - i,
        {
            if i >= self.profiles.len() {
                break;
            }
            let ni = chars_of(self.profiles[i].name.as_str());
            if !chars_lt(&ni, &name) {
                break;
            }
            i = i + 1;
        }
        let same = i < self.profiles.len() && str_eq(self.profiles[i].name.as_str(), profile.name.as_str());
        if same {
            self.profiles.set(i, profile);
            proof {
                let s = self.profiles@;
                assert forall|a: int, b: int| 0 <= a < b < s.len() implies seq_lt(
                    #[trigger] s[a].name@,
                    #[trigger] s[b].name@,
                ) by {
                    assert(s[a].name@ == s0[a].name@);
                    assert(s[b].name@ == s0[b].name@);
                }
                lemma_profile_named(s, pv.name@, i as int);
                assert forall|n: Seq<char>| n != pv.name@ implies profile_named(s, n) === profile_named(s0, n) by {
                    if has_profile(s0, n) {
                        let j = choose|j: int| 0 <= j < s0.len() && #[trigger] s0[j].name@ == n;
                        lemma_profile_named(s0, n, j);
                        assert(s[j] == s0[j]);
                        lemma_profile_named(s, n, j);
                    } else {
                        assert forall|j: int| 0 <= j < s.len() implies #[trigger] s[j].name@ != n by {
                            assert(s[j].name@ == s0[j].name@);
                        }
                    }
                }
            }
        } else {
            proof {
                if i < s0.len() {
                    lemma_seq_lt_total(s0[i as int].name@, name@);
                }
            }
            self.profiles.insert(i, profile);
            proof {
                let s = self.profiles@;
                lemma_insert_at(s0, i as int, pv);
                assert forall|a: int, b: int| 0 <= a < b < s.len() implies seq_lt(
                    #[trigger] s[a].name@,
                    #[trigger] s[b].name@,
                ) by {
                    if b < i {
                    } else if b == i {
                    } else if a == i {
                        assert(seq_lt(name@, s0[i as int].name@));
                        if b - 1 > i {
                            lemma_seq_lt_trans(name@, s0[i as int].name@, s0[b - 1].name@);
                        }
                    } else if a < i {
                        assert(s[a] == s0[a] && s[b] == s0[b - 1]);
                    } else {
                    }
                }
                lemma_profile_named(s, pv.name@, i as int);
                assert forall|n: Seq<char>| n != pv.name@ implies profile_named(s, n) === profile_named(s0, n) by {
                    if has_profile(s0, n) {
                        let j = choose|j: int| 0 <= j < s0.len() && #[trigger] s0[j].name@ == n;
                        lemma_profile_named(s0, n, j);
                        let j1 = if j < i { j } else { j + 1 };
                        assert(s[j1] == s0[j]);
                        lemma_profile_named(s, n, j1);
                    } else {
                        assert forall|j: int| 0 <= j < s.len() implies #[trigger] s[j].name@ != n by {
                            if j < i {
                                assert(s[j] == s0[j]);
                            } else if j > i {
                                assert(s[j] == s0[j - 1]);
                            }
                        }
                    }
                }
            }
        }
    }
}


proof fn lemma_count_match(ts: Seq<TaggedEntry>, es: Seq<ConflictEntry>, d: BindingDecision)
    requires
        ts.len() == es.len(),
        forall|i: int| 0 <= i < ts.len() ==> #[trigger] es[i].decision == ts[i].entry.decision,
    ensures
        count_decision(es, d) == tagged_count(ts, d),
    decreases ts.len(),
{
    if ts.len() > 0 {
        let ts2 = ts.drop_last();
        let es2 = es.drop_last();
        assert forall|i: int| 0 <= i < ts2.len() implies #[trigger] es2[i].decision
            == ts2[i].entry.decision by {
            assert(es2[i] == es[i] && ts2[i] == ts[i]);
        }
        lemma_count_match(ts2, es2, d);
    }
}

/// The entries of the finished parts, in order.
fn finish_entries(
    tagged: &Vec<TaggedEntry>,
    Ghost(o): Ghost<Map<ComboView, BindingView>>,
    Ghost(t): Ghost<Map<ComboView, BindingView>>,
    Ghost(b): Ghost<Map<ComboView, BaselineView>>,
    Ghost(policy): Ghost<ConflictPolicy>,
) -> (r: Vec<ConflictEntry>)
    requires
        distinct_keys(tagged@),
        sorted_by_key(tagged@),
        forall|c: ComboView| #[trigger]
            keyed_map(tagged@).contains_key(c) <==> (o.contains_key(c) || t.contains_key(c)),
        forall|c: ComboView| #[trigger]
            keyed_map(tagged@).contains_key(c) ==> keyed_map(tagged@)[c] == (
                c,
                plan_entry(o, t, b, policy, c),
            ),
    ensures
        sorted_by_key(r@),
        forall|d: BindingDecision| count_decision(r@, d) == tagged_count(tagged@, d),
        exists|cs: Seq<ComboView>|
            #![trigger cs.len()]
            {
                &&& cs.len() == r@.len()
                &&& forall|i: int, j: int| 0 <= i < j < cs.len() ==> cs[i] != cs[j]
                &&& forall|c: ComboView|
                    cs.contains(c) <==> (#[trigger] o.contains_key(c) || t.contains_key(c))
                &&& forall|i: int|
                    0 <= i < cs.len() ==> #[trigger] r@[i]@ == plan_entry(o, t, b, policy, cs[i])
            },
{
    let mut out: Vec<ConflictEntry> = Vec::new();
    let mut i: usize = 0;
    while i < tagged.len()
        invariant
            i <= tagged@.len(),
            out@.len() == i,
            forall|j: int| 0 <= j < i ==> #[trigger] out@[j]@ == tagged@[j]@.1,
            forall|j: int| 0 <= j < i ==> #[trigger] out@[j].decision == tagged@[j].entry.decision,
        decreases tagged@.len() - i,
    {
        out.push(tagged[i].entry.duplicate());
        i = i + 1;
    }
    proof {
        let ts = tagged@;
        let cs = ts.map_values(|x: TaggedEntry| x@.0);
        assert forall|a: int, c: int| 0 <= a < c < out@.len() implies seq_le_keys(out@, a, c) by {
            assert(out@[a]@ == ts[a]@.1 && out@[c]@ == ts[c]@.1);
        }
        assert forall|d: BindingDecision| count_decision(out@, d) == tagged_count(ts, d) by {
            lemma_count_match(ts, out@, d);
        }
        assert forall|x: int, y: int| 0 <= x < y < cs.len() implies cs[x] != cs[y] by {
        }
        assert forall|c: ComboView| cs.contains(c) <==> (#[trigger] o.contains_key(c) || t.contains_key(c)) by {
            lemma_keyed_dom(ts, c);
            if cs.contains(c) {
                let m = choose|m: int| 0 <= m < cs.len() && cs[m] == c;
                assert(<TaggedEntry as Keyed>::key_view(ts[m]@) == c);
            }
            if o.contains_key(c) || t.contains_key(c) {
                let m = choose|m: int| 0 <= m < ts.len() && <TaggedEntry as Keyed>::key_view(#[trigger] ts[m]@) == c;
                assert(cs[m] == c);
            }
        }
        assert forall|m: int| 0 <= m < cs.len() implies #[trigger] out@[m]@ == plan_entry(o, t, b, policy, cs[m]) by {
            lemma_keyed_val(ts, m);
            lemma_keyed_dom(ts, cs[m]);
        }
        assert(cs.len() == out@.len());
    }
    out
}

spec fn seq_le_keys(s: Seq<ConflictEntry>, a: int, c: int) -> bool {
    crate::text::seq_le(
        <ConflictEntry as SortKey>::sort_key(s[a]@),
        <ConflictEntry as SortKey>::sort_key(s[c]@),
    )
}

impl StateManager {
    /// The plan (and its arbitration report) that moves the compositor from
    /// the current overlays to profile `target_name` under `policy`: own
    /// overlays that the target drops or changes are unbound; target
    /// bindings that change an own overlay, or that arbitration lets
    /// through, are bound, and the baseline bindings they override are
    /// unbound. Combos are listed in canonical-text order.
    pub fn switch_profile_with_policy(&self, target_name: &str, policy: ConflictPolicy) -> (r: Result<
        ResolvedSwitchPlan,
        CoreError,
    >)
        requires
            self.wf(),
        ensures
            match profile_named(self.profile_list(), target_name@) {
                None => r matches Err(CoreError::ProfileNotFound(n)) && n@ == target_name@,
                Some(p) => r matches Ok(res) && switch_result(
                    self.overlays(),
                    profile_map(p),
                    self.baselines(),
                    policy,
                    target_name@,
                    res,
                ),
            },
    {
        let pi = match self.find_profile(target_name) {
            None => {
                return Err(CoreError::ProfileNotFound(owned(target_name)));
            },
            Some(i) => i,
        };
        let target = &self.profiles[pi];
        let ghost t = profile_map(*target);
        let ghost o = self.overlays();
        let ghost b = self.baselines();
        proof {
            self.active_overlays.lemma_entries();
            self.baseline_bindings.lemma_entries();
        }
        let mut tm: Vec<Binding> = Vec::new();
        let mut k: usize = 0;
        while k < target.bindings.len()
            invariant
                k <= target.bindings@.len(),
                distinct_keys(tm@),
                keyed_map(tm@) == keyed_map(target.bindings@.take(k as int)),
            decreases target.bindings@.len() - k,
        {
            assert(target.bindings@.take((k + 1) as int).drop_last() =~= target.bindings@.take(k as int));
            upsert(&mut tm, target.bindings[k].duplicate());
            k = k + 1;
        }
        assert(target.bindings@.take(target.bindings@.len() as int) =~= target.bindings@);
        let ov = self.active_overlays.items();
        let mut parts = PlanParts::new();
        let mut i: usize = 0;
        while i < ov.len()
            invariant
                i <= ov@.len(),
                distinct_keys(ov@),
                keyed_map(ov@) == o,
                distinct_keys(tm@),
                keyed_map(tm@) == t,
                parts_ok(
                    parts,
                    o,
                    t,
                    b,
                    policy,
                    |c: ComboView| exists|j: int| 0 <= j < i && #[trigger] ov@[j]@.key_combo == c,
                ),
            decreases ov@.len() - i,
        {
            let cur = &ov[i];
            let combo = &cur.key_combo;
            let ghost done = |c: ComboView| exists|j: int| 0 <= j < i && #[trigger] ov@[j]@.key_combo == c;
            proof {
                lemma_keyed_val(ov@, i as int);
                assert(!done(combo@));
            }
            match lookup(&tm, combo) {
                Some(nb) => {
                    if !nb.action.same(&cur.action) {
                        let entry = ConflictEntry {
                            key_combo: combo.canonical_str(),
                            baseline_dispatcher: None,
                            baseline_args: None,
                            target_action: Some(nb.action.duplicate()),
                            classification: BindingClassification::New,
                            decision: BindingDecision::Applied,
                            reason: owned("replacing previous AetherShift overlay"),
                        };
                        parts.add(
                            combo,
                            entry,
                            true,
                            Some(nb.duplicate()),
                            Ghost(o),
                            Ghost(t),
                            Ghost(b),
                            Ghost(policy),
                            Ghost(done),
                        );
                    } else {
                        let entry = ConflictEntry {
                            key_combo: combo.canonical_str(),
                            baseline_dispatcher: None,
                            baseline_args: None,
                            target_action: Some(nb.action.duplicate()),
                            classification: BindingClassification::Identical,
                            decision: BindingDecision::Skipped,
                            reason: owned("identical AetherShift overlay"),
                        };
                        parts.add(
                            combo,
                            entry,
                            false,
                            None,
                            Ghost(o),
                            Ghost(t),
                            Ghost(b),
                            Ghost(policy),
                            Ghost(done),
                        );
                    }
                },
                None => {
                    let entry = ConflictEntry {
                        key_combo: combo.canonical_str(),
                        baseline_dispatcher: None,
                        baseline_args: None,
                        target_action: None,
                        classification: BindingClassification::New,
                        decision: BindingDecision::Applied,
                        reason: owned("removing previous AetherShift overlay"),
                    };
                    parts.add(
                        combo,
                        entry,
                        true,
                        None,
                        Ghost(o),
                        Ghost(t),
                        Ghost(b),
                        Ghost(policy),
                        Ghost(done),
                    );
                },
            }
            proof {
                let next = |c: ComboView| exists|j: int| 0 <= j < i + 1 && #[trigger] ov@[j]@.key_combo == c;
                assert(next =~= |x: ComboView| done(x) || x == combo@);
            }
            i = i + 1;
        }
        proof {
            let d1 = |c: ComboView| exists|j: int| 0 <= j < i && #[trigger] ov@[j]@.key_combo == c;
            let d2 = |c: ComboView|
                o.contains_key(c) || exists|j: int| 0 <= j < 0 && #[trigger] tm@[j]@.key_combo == c;
            assert forall|c: ComboView| #[trigger] d1(c) == d2(c) by {
                lemma_keyed_dom(ov@, c);
            }
            assert(d1 =~= d2);
        }
        let mut k: usize = 0;
        while k < tm.len()
            invariant
                k <= tm@.len(),
                distinct_keys(ov@),
                keyed_map(ov@) == o,
                distinct_keys(tm@),
                keyed_map(tm@) == t,
                self.wf(),
                self.overlays() == o,
                self.baselines() == b,
                parts_ok(
                    parts,
                    o,
                    t,
                    b,
                    policy,
                    |c: ComboView|
                        o.contains_key(c) || exists|j: int| 0 <= j < k && #[trigger] tm@[j]@.key_combo == c,
                ),
            decreases tm@.len() - k,
        {
            let nb = &tm[k];
            let combo = &nb.key_combo;
            let ghost done = |c: ComboView|
                o.contains_key(c) || exists|j: int| 0 <= j < k && #[trigger] tm@[j]@.key_combo == c;
            proof {
                lemma_keyed_val(tm@, k as int);
            }
            if !self.active_overlays.contains_key(combo) {
                let base = self.baseline_bindings.get(combo);
                let (cls, dec, reason) = resolve_for_policy(combo, base, nb, policy);
                let entry = ConflictEntry {
                    key_combo: combo.canonical_str(),
                    baseline_dispatcher: match base {
                        Some(x) => Some(x.dispatcher.clone()),
                        None => None,
                    },
                    baseline_args: match base {
                        Some(x) => Some(x.args.clone()),
                        None => None,
                    },
                    target_action: Some(nb.action.duplicate()),
                    classification: cls,
                    decision: dec,
                    reason,
                };
                let applies = cls != BindingClassification::Identical && dec != BindingDecision::Skipped;
                let unbind = applies && cls == BindingClassification::Conflict;
                let bnd = if applies {
                    Some(nb.duplicate())
                } else {
                    None
                };
                proof {
                    assert(crate::conflict::opt_base_view(base) == base_at(b, combo@));
                    assert(!done(combo@));
                }
                parts.add(
                    combo,
                    entry,
                    unbind,
                    bnd,
                    Ghost(o),
                    Ghost(t),
                    Ghost(b),
                    Ghost(policy),
                    Ghost(done),
                );
                proof {
                    let next = |c: ComboView|
                        o.contains_key(c) || exists|j: int| 0 <= j < k + 1 && #[trigger] tm@[j]@.key_combo == c;
                    assert(next =~= |x: ComboView| done(x) || x == combo@);
                }
            } else {
                proof {
                    let next = |c: ComboView|
                        o.contains_key(c) || exists|j: int| 0 <= j < k + 1 && #[trigger] tm@[j]@.key_combo == c;
                    assert(next =~= done);
                }
            }
            k = k + 1;
        }
        proof {
            let done = |c: ComboView|
                o.contains_key(c) || exists|j: int| 0 <= j < k && #[trigger] tm@[j]@.key_combo == c;
            assert forall|c: ComboView| done(c) <==> (o.contains_key(c) || t.contains_key(c)) by {
                lemma_keyed_dom(tm@, c);
            }
        }
        let entries = finish_entries(&parts.tagged, Ghost(o), Ghost(t), Ghost(b), Ghost(policy));
        let report = ConflictReport {
            entries,
            applied: parts.applied,
            skipped: parts.skipped,
            forced: parts.forced,
        };
        let plan = SwitchPlan { target_profile: owned(target_name), unbind: parts.unbind, bind: parts.bind };
        Ok(ResolvedSwitchPlan { plan, report })
    }
}


// ---------------------------------------------------------------------------
// Committing, restoring and editing
// ---------------------------------------------------------------------------

/// Whether a binding does exactly what the baseline binding of its combo
/// does.
pub open spec fn identical_to_base(b: Map<ComboView, BaselineView>, x: BindingView) -> bool {
    b.contains_key(x.key_combo) && (b[x.key_combo].dispatcher, b[x.key_combo].args)
        == crate::binding::dispatcher_of(x.action)
}

/// The overlays in place after committing to bindings `bs`: each binding
/// not identical to its baseline, a later binding of the same combo winning.
pub open spec fn committed_overlays(bs: Seq<Binding>, b: Map<ComboView, BaselineView>) -> Map<
    ComboView,
    BindingView,
>
    decreases bs.len(),
{
    if bs.len() == 0 {
        Map::empty()
    } else {
        let m = committed_overlays(bs.drop_last(), b);
        let x = bs.last()@;
        if identical_to_base(b, x) {
            m
        } else {
            m.insert(x.key_combo, x)
        }
    }
}

/// Without baseline bindings, committing to bindings `bs` puts each of them
/// in place; when their combos are distinct, there are as many overlays as
/// bindings.
pub proof fn lemma_commit_without_baseline(bs: Seq<Binding>)
    ensures
        committed_overlays(bs, Map::<ComboView, BaselineView>::empty()) == keyed_map(bs),
        distinct_keys(bs) ==> committed_overlays(bs, Map::<ComboView, BaselineView>::empty()).dom().len()
            == bs.len(),
    decreases bs.len(),
{
    if bs.len() > 0 {
        lemma_commit_without_baseline(bs.drop_last());
    }
    if distinct_keys(bs) {
        crate::keyed::lemma_keyed_len(bs);
    }
}

/// The displaced baseline bindings after unbinding the combos `us`: each
/// unbound combo with a baseline binding is recorded.
pub open spec fn replaced_after(
    r: Map<ComboView, BaselineView>,
    b: Map<ComboView, BaselineView>,
    us: Seq<KeyCombo>,
) -> Map<ComboView, BaselineView>
    decreases us.len(),
{
    if us.len() == 0 {
        r
    } else {
        let m = replaced_after(r, b, us.drop_last());
        let c = us.last()@;
        if b.contains_key(c) {
            m.insert(c, b[c])
        } else {
            m
        }
    }
}

/// The baseline bindings a restore binds again: each displaced one, and
/// the baseline binding of each overlay combo that has one.
pub open spec fn rebound(
    o: Map<ComboView, BindingView>,
    r: Map<ComboView, BaselineView>,
    b: Map<ComboView, BaselineView>,
) -> Map<ComboView, BaselineView> {
    Map::new(
        |c: ComboView| r.contains_key(c) || (o.contains_key(c) && b.contains_key(c)),
        |c: ComboView| if r.contains_key(c) { r[c] } else { b[c] },
    )
}

/// The abstract values of a list of bindings.
pub open spec fn binding_views(s: Seq<Binding>) -> Seq<BindingView> {
    s.map_values(|b: Binding| b@)
}

/// The first position of a binding for combo `c`.
pub open spec fn first_combo_index(bs: Seq<BindingView>, c: ComboView) -> Option<int>
    decreases bs.len(),
{
    if bs.len() == 0 {
        None
    } else {
        match first_combo_index(bs.drop_last(), c) {
            Some(i) => Some(i),
            None => if bs.last().key_combo == c {
                Some(bs.len() - 1)
            } else {
                None
            },
        }
    }
}

proof fn lemma_first_combo_index(bs: Seq<BindingView>, c: ComboView, i: int)
    requires
        0 <= i <= bs.len(),
        forall|j: int| 0 <= j < i ==> #[trigger] bs[j].key_combo != c,
        i < bs.len() ==> bs[i].key_combo == c,
    ensures
        first_combo_index(bs, c) == if i < bs.len() {
            Some(i)
        } else {
            None::<int>
        },
    decreases bs.len(),
{
    if bs.len() > 0 {
        let t = bs.drop_last();
        if i < bs.len() - 1 {
            assert forall|j: int| 0 <= j < i implies #[trigger] t[j].key_combo != c by {
                assert(t[j] == bs[j]);
            }
            assert(t[i] == bs[i]);
            lemma_first_combo_index(t, c, i);
        } else {
            assert forall|j: int| 0 <= j < t.len() implies #[trigger] t[j].key_combo != c by {
                assert(t[j] == bs[j]);
            }
            lemma_first_combo_index(t, c, t.len() as int);
        }
    }
}

/// The bindings after binding `nb`: it replaces the first binding of its
/// combo, or is appended.
pub open spec fn updated_bindings(bs: Seq<BindingView>, nb: BindingView) -> Seq<BindingView> {
    match first_combo_index(bs, nb.key_combo) {
        Some(i) => bs.update(i, nb),
        None => bs.push(nb),
    }
}

/// Copies of a list of bindings.
fn clone_bindings(v: &Vec<Binding>) -> (r: Vec<Binding>)
    ensures
        binding_views(r@) == binding_views(v@),
        crate::profile::canon_seq(r@) == crate::profile::canon_seq(v@),
{
    let mut out: Vec<Binding> = Vec::new();
    let mut i: usize = 0;
    while i < v.len()
        invariant
            i <= v@.len(),
            out@.len() == i,
            forall|j: int| 0 <= j < i ==> #[trigger] out@[j]@ == v@[j]@,
        decreases v@.len() - i,
    {
        out.push(v[i].duplicate());
        i = i + 1;
    }
    assert(binding_views(out@) =~= binding_views(v@));
    assert forall|j: int| 0 <= j < out@.len() implies #[trigger] out@[j].key_combo@ == v@[j].key_combo@ by {
        assert(out@[j]@ == v@[j]@);
    }
    assert(crate::profile::canon_seq(out@) =~= crate::profile::canon_seq(v@));
    out
}

impl StateManager {
    /// The protected baseline bindings.
    pub fn baseline(&self) -> (r: &ComboMap<BaselineBinding>)
        requires
            self.wf(),
        ensures
            r.wf(),
            r@ == self.baselines(),
    {
        &self.baseline_bindings
    }

    pub fn active_profile_name(&self) -> (r: &str)
        ensures
            r@ == self.active_name(),
    {
        self.active_profile.as_str()
    }

    /// Number of overlays in place.
    pub fn overlays_count(&self) -> (r: usize)
        requires
            self.wf(),
        ensures
            r == self.overlays().dom().len(),
    {
        self.active_overlays.len()
    }

    /// The overlays in place.
    pub fn active_overlays(&self) -> (r: &ComboMap<Binding>)
        requires
            self.wf(),
        ensures
            r.wf(),
            r@ == self.overlays(),
    {
        &self.active_overlays
    }

    /// The known profiles are sorted by strictly increasing name.
    pub proof fn lemma_profiles_sorted(&self)
        requires
            self.wf(),
        ensures
            names_sorted(self.profile_list()),
    {
    }

    /// The number the next history record gets.
    pub fn history_sequence(&self) -> (r: u64)
        ensures
            r == self.next_sequence(),
    {
        self.next_history_sequence
    }

    pub fn last_conflict_report(&self) -> (r: &ConflictReport)
        ensures
            *r == self.report(),
    {
        &self.last_conflict_report
    }

    pub fn total_skipped_conflicts(&self) -> (r: usize)
        ensures
            r == self.skipped_total(),
    {
        self.total_skipped_conflicts
    }

    pub fn total_forced_overrides(&self) -> (r: usize)
        ensures
            r == self.forced_total(),
    {
        self.total_forced_overrides
    }

    pub fn window_policy(&self) -> (r: WindowPolicy)
        ensures
            r == self.policy(),
    {
        self.window_policy
    }

    pub fn set_window_policy(&mut self, policy: WindowPolicy)
        requires
            old(self).wf(),
        ensures
            final(self).wf(),
            final(self).policy() == policy,
            final(self).history() == old(self).history(),
            final(self).next_sequence() == old(self).next_sequence(),
            final(self).report() == old(self).report(),
            final(self).skipped_total() == old(self).skipped_total(),
            final(self).forced_total() == old(self).forced_total(),
            final(self).profile_list() == old(self).profile_list(),
            final(self).active_name() == old(self).active_name(),
            final(self).overlays() == old(self).overlays(),
            final(self).baselines() == old(self).baselines(),
            final(self).replaced() == old(self).replaced(),
    {
        self.window_policy = policy;
    }

    /// Replaces the protected baseline by `bindings` (a later binding of the
    /// same combo wins).
    pub fn set_baseline(&mut self, bindings: Vec<BaselineBinding>)
        requires
            old(self).wf(),
        ensures
            final(self).wf(),
            final(self).baselines() == keyed_map(bindings@),
            keeps_records(*old(self), *final(self)),
            final(self).profile_list() == old(self).profile_list(),
            final(self).active_name() == old(self).active_name(),
            final(self).overlays() == old(self).overlays(),
            final(self).replaced() == old(self).replaced(),
    {
        let mut m: ComboMap<BaselineBinding> = ComboMap::new();
        let mut i: usize = 0;
        while i < bindings.len()
            invariant
                i <= bindings@.len(),
                m.wf(),
                m@ == keyed_map(bindings@.take(i as int)),
            decreases bindings@.len() - i,
        {
            assert(bindings@.take((i + 1) as int).drop_last() =~= bindings@.take(i as int));
            m.insert(bindings[i].duplicate());
            i = i + 1;
        }
        assert(bindings@.take(bindings@.len() as int) =~= bindings@);
        self.baseline_bindings = m;
    }

    /// The profile named `name`.
    pub fn get_profile(&self, name: &str) -> (r: Option<&Profile>)
        requires
            self.wf(),
        ensures
            match r {
                Some(p) => profile_named(self.profile_list(), name@) === Some(*p),
                None => profile_named(self.profile_list(), name@) is None,
            },
    {
        match self.find_profile(name) {
            Some(i) => Some(&self.profiles[i]),
            None => None,
        }
    }

    /// Summaries of all profiles, by increasing name.
    pub fn list_profiles(&self) -> (r: Vec<ProfileInfo>)
        requires
            self.wf(),
        ensures
            r@.len() == self.profile_list().len(),
            forall|i: int|
                0 <= i < r@.len() ==> {
                    let p = #[trigger] self.profile_list()[i];
                    &&& r@[i].name@ == p.name@
                    &&& r@[i].description@ == p.description@
                    &&& r@[i].bindings_count == p.bindings@.len()
                    &&& r@[i].is_active == (p.name@ == self.active_name())
                },
    {
        let mut out: Vec<ProfileInfo> = Vec::new();
        let mut i: usize = 0;
        while i < self.profiles.len()
            invariant
                i <= self.profiles@.len(),
                out@.len() == i,
                forall|j: int|
                    0 <= j < i ==> {
                        let p = #[trigger] self.profiles@[j];
                        &&& out@[j].name@ == p.name@
                        &&& out@[j].description@ == p.description@
                        &&& out@[j].bindings_count == p.bindings@.len()
                        &&& out@[j].is_active == (p.name@ == self.active_profile@)
                    },
            decreases self.profiles@.len() - i,
        {
            let p = &self.profiles[i];
            out.push(
                ProfileInfo {
                    name: p.name.clone(),
                    description: p.description.clone(),
                    bindings_count: p.bindings.len(),
                    is_active: str_eq(p.name.as_str(), self.active_profile.as_str()),
                },
            );
            i = i + 1;
        }
        out
    }

    /// The plan to switch to `target_name` under the strict policy.
    pub fn switch_profile(&self, target_name: &str) -> (r: Result<SwitchPlan, CoreError>)
        requires
            self.wf(),
        ensures
            match profile_named(self.profile_list(), target_name@) {
                None => r matches Err(CoreError::ProfileNotFound(n)) && n@ == target_name@,
                Some(p) => r matches Ok(plan) && exists|res: ResolvedSwitchPlan|
                    #[trigger] switch_result(
                        self.overlays(),
                        profile_map(p),
                        self.baselines(),
                        ConflictPolicy::Strict,
                        target_name@,
                        res,
                    ) && res.plan == plan,
            },
    {
        match self.switch_profile_with_policy(target_name, ConflictPolicy::Strict) {
            Ok(res) => Ok(res.plan),
            Err(e) => Err(e),
        }
    }

    /// Makes `plan` the current state, recording `report`: the overlays
    /// become the target profile's bindings except those identical to their
    /// baseline, and the baseline bindings of unbound combos are remembered
    /// for a later restore.
    pub fn commit_switch_with_report(&mut self, plan: &SwitchPlan, report: &ConflictReport) -> (r:
        Result<(), CoreError>)
        requires
            old(self).wf(),
        ensures
            final(self).wf(),
            match profile_named(old(self).profile_list(), plan.target_profile@) {
                None => r matches Err(CoreError::ProfileNotFound(n)) && n@ == plan.target_profile@
                    && *final(self) === *old(self),
                Some(p) => {
                    &&& r is Ok
                    &&& final(self).overlays() == committed_overlays(p.bindings@, old(self).baselines())
                    &&& final(self).replaced() == replaced_after(
                        old(self).replaced(),
                        old(self).baselines(),
                        plan.unbind@,
                    )
                    &&& final(self).active_name() == plan.target_profile@
                    &&& crate::conflict::entry_views(final(self).report().entries@)
                        == crate::conflict::entry_views(report.entries@)
                    &&& final(self).report().applied == report.applied
                    &&& final(self).report().skipped == report.skipped
                    &&& final(self).report().forced == report.forced
                    &&& final(self).skipped_total() == old(self).skipped_total().saturating_add(
                        report.skipped,
                    )
                    &&& final(self).forced_total() == old(self).forced_total().saturating_add(
                        report.forced,
                    )
                    &&& final(self).profile_list() == old(self).profile_list()
                    &&& final(self).baselines() == old(self).baselines()
                    &&& final(self).policy() == old(self).policy()
                    &&& final(self).history() == old(self).history()
                    &&& final(self).next_sequence() == old(self).next_sequence()
                },
            },
    {
        let pi = match self.find_profile(plan.target_profile.as_str()) {
            None => {
                return Err(CoreError::ProfileNotFound(plan.target_profile.clone()));
            },
            Some(i) => i,
        };
        let ghost b = self.baselines();
        let ghost s0 = *self;
        let mut new_overlays: ComboMap<Binding> = ComboMap::new();
        let bs = &self.profiles[pi].bindings;
        let mut k: usize = 0;
        while k < bs.len()
            invariant
                k <= bs@.len(),
                new_overlays.wf(),
                self.baseline_bindings.wf(),
                self.baseline_bindings@ == b,
                new_overlays@ == committed_overlays(bs@.take(k as int), b),
            decreases bs@.len() - k,
        {
            let x = &bs[k];
            assert(bs@.take((k + 1) as int).drop_last() =~= bs@.take(k as int));
            let (d, a) = x.action.to_hyprland_dispatcher();
            let identical = match self.baseline_bindings.get(&x.key_combo) {
                Some(base) => str_eq(base.dispatcher.as_str(), d.as_str()) && str_eq(
                    base.args.as_str(),
                    a.as_str(),
                ),
                None => false,
            };
            if !identical {
                new_overlays.insert(x.duplicate());
            }
            k = k + 1;
        }
        assert(bs@.take(bs@.len() as int) =~= bs@);
        let ghost r0 = self.replaced();
        let mut u: usize = 0;
        while u < plan.unbind.len()
            invariant
                u <= plan.unbind@.len(),
                self.replaced_baseline.wf(),
                self.baseline_bindings.wf(),
                self.baseline_bindings@ == b,
                self.replaced_baseline@ == replaced_after(r0, b, plan.unbind@.take(u as int)),
                self.profiles == s0.profiles,
                self.active_profile == s0.active_profile,
                self.active_overlays == s0.active_overlays,
                self.last_conflict_report == s0.last_conflict_report,
                self.total_skipped_conflicts == s0.total_skipped_conflicts,
                self.total_forced_overrides == s0.total_forced_overrides,
                self.window_policy == s0.window_policy,
                self.switch_history == s0.switch_history,
                self.next_history_sequence == s0.next_history_sequence,
            decreases plan.unbind@.len() - u,
        {
            assert(plan.unbind@.take((u + 1) as int).drop_last() =~= plan.unbind@.take(u as int));
            assert(plan.unbind@.take((u + 1) as int).last() == plan.unbind@[u as int]);
            let ghost before = self.replaced_baseline@;
            let ghost c = plan.unbind@[u as int]@;
            match self.baseline_bindings.get(&plan.unbind[u]) {
                Some(base) => {
                    let copy = base.duplicate();
                    assert(copy@ == b[c]);
                    assert(base@.key_combo == c);
                    assert(<BaselineBinding as Keyed>::key_view(copy@) == c);
                    self.replaced_baseline.insert(copy);
                    assert(self.replaced_baseline@ == before.insert(c, b[c]));
                },
                None => {
                    assert(!b.contains_key(c));
                },
            }
            assert(self.replaced_baseline@ == replaced_after(r0, b, plan.unbind@.take((u + 1) as int)));
            u = u + 1;
        }
        assert(plan.unbind@.take(plan.unbind@.len() as int) =~= plan.unbind@);
        self.active_overlays = new_overlays;
        self.active_profile = plan.target_profile.clone();
        self.last_conflict_report = report.duplicate();
        self.total_skipped_conflicts = self.total_skipped_conflicts.saturating_add(report.skipped);
        self.total_forced_overrides = self.total_forced_overrides.saturating_add(report.forced);
        Ok(())
    }

    /// Commits `plan`, recording the last report again.
    pub fn commit_switch(&mut self, plan: &SwitchPlan) -> (r: Result<(), CoreError>)
        requires
            old(self).wf(),
        ensures
            final(self).wf(),
            match profile_named(old(self).profile_list(), plan.target_profile@) {
                None => r matches Err(CoreError::ProfileNotFound(n)) && n@ == plan.target_profile@
                    && *final(self) === *old(self),
                Some(p) => {
                    &&& r is Ok
                    &&& final(self).history() == old(self).history()
                    &&& final(self).next_sequence() == old(self).next_sequence()
                    &&& final(self).report().applied == old(self).report().applied
                    &&& final(self).report().skipped == old(self).report().skipped
                    &&& final(self).report().forced == old(self).report().forced
                    &&& final(self).overlays() == committed_overlays(p.bindings@, old(self).baselines())
                    &&& final(self).replaced() == replaced_after(
                        old(self).replaced(),
                        old(self).baselines(),
                        plan.unbind@,
                    )
                    &&& final(self).active_name() == plan.target_profile@
                    &&& final(self).skipped_total() == old(self).skipped_total().saturating_add(
                        old(self).report().skipped,
                    )
                    &&& final(self).forced_total() == old(self).forced_total().saturating_add(
                        old(self).report().forced,
                    )
                    &&& final(self).profile_list() == old(self).profile_list()
                    &&& final(self).baselines() == old(self).baselines()
                    &&& final(self).policy() == old(self).policy()
                    &&& crate::conflict::entry_views(final(self).report().entries@)
                        == crate::conflict::entry_views(old(self).report().entries@)
                },
            },
    {
        let report = self.last_conflict_report.duplicate();
        self.commit_switch_with_report(plan, &report)
    }

    /// The plan back to the baseline: unbind every overlay, and bind again
    /// each displaced baseline binding and the baseline binding of every
    /// overlay combo (an unbind of the combo removes whatever the compositor
    /// held there).
    pub fn restore_plan(&self) -> (r: SwitchPlan)
        requires
            self.wf(),
        ensures
            r.target_profile@ == "native"@,
            distinct_keys(r.unbind@),
            sorted_by_key(r.unbind@),
            forall|c: ComboView| #[trigger]
                keyed_map(r.unbind@).contains_key(c) <==> self.overlays().contains_key(c),
            distinct_keys(r.bind@),
            sorted_by_key(r.bind@),
            forall|c: ComboView| #[trigger]
                keyed_map(r.bind@).contains_key(c) <==> rebound(self.overlays(), self.replaced(), self.baselines()).contains_key(c),
            forall|c: ComboView| #[trigger]
                keyed_map(r.bind@).contains_key(c) ==> keyed_map(r.bind@)[c] == baseline_as_binding(
                    rebound(self.overlays(), self.replaced(), self.baselines())[c],
                ),
    {
        proof {
            self.active_overlays.lemma_entries();
            self.replaced_baseline.lemma_entries();
        }
        let ov = self.active_overlays.items();
        let mut unbind: Vec<KeyCombo> = Vec::new();
        let mut i: usize = 0;
        while i < ov.len()
            invariant
                i <= ov@.len(),
                distinct_keys(ov@),
                distinct_keys(unbind@),
                sorted_by_key(unbind@),
                forall|c: ComboView| #[trigger]
                    keyed_map(unbind@).contains_key(c) <==> exists|j: int|
                        0 <= j < i && #[trigger] ov@[j]@.key_combo == c,
            decreases ov@.len() - i,
        {
            let c = ov[i].key_combo.duplicate();
            assert(ov@[i as int]@.key_combo == c@);
            proof {
                let ghost cv = c@;
                assert forall|j: int| 0 <= j < i implies #[trigger] ov@[j]@.key_combo != cv by {
                }
            }
            insert_sorted_keyed(&mut unbind, c);
            i = i + 1;
        }
        let rp = self.replaced_baseline.items();
        let mut bind: Vec<Binding> = Vec::new();
        let mut k: usize = 0;
        while k < rp.len()
            invariant
                k <= rp@.len(),
                distinct_keys(rp@),
                keyed_map(rp@) == self.replaced(),
                distinct_keys(bind@),
                sorted_by_key(bind@),
                forall|c: ComboView| #[trigger]
                    keyed_map(bind@).contains_key(c) <==> exists|j: int|
                        0 <= j < k && #[trigger] rp@[j]@.key_combo == c,
                forall|c: ComboView| #[trigger]
                    keyed_map(bind@).contains_key(c) ==> keyed_map(bind@)[c] == baseline_as_binding(
                        self.replaced()[c],
                    ),
            decreases rp@.len() - k,
        {
            let nb = rp[k].to_binding();
            assert(rp@[k as int]@.key_combo == nb@.key_combo);
            proof {
                lemma_keyed_val(rp@, k as int);
                let ghost cv = nb@.key_combo;
                assert forall|j: int| 0 <= j < k implies #[trigger] rp@[j]@.key_combo != cv by {
                }
            }
            insert_sorted_keyed(&mut bind, nb);
            k = k + 1;
        }
        proof {
            assert forall|c: ComboView| #[trigger]
                keyed_map(unbind@).contains_key(c) <==> self.overlays().contains_key(c) by {
                lemma_keyed_dom(ov@, c);
            }
            assert forall|c: ComboView| #[trigger]
                keyed_map(bind@).contains_key(c) <==> self.replaced().contains_key(c) by {
                lemma_keyed_dom(rp@, c);
            }
        }
        let ghost rb = rebound(self.overlays(), self.replaced(), self.baselines());
        let mut i: usize = 0;
        while i < ov.len()
            invariant
                i <= ov@.len(),
                self.wf(),
                distinct_keys(ov@),
                keyed_map(ov@) == self.overlays(),
                rb == rebound(self.overlays(), self.replaced(), self.baselines()),
                distinct_keys(bind@),
                sorted_by_key(bind@),
                forall|c: ComboView| #[trigger]
                    keyed_map(bind@).contains_key(c) <==> (self.replaced().contains_key(c) || (
                    self.baselines().contains_key(c) && exists|j: int|
                        0 <= j < i && #[trigger] ov@[j]@.key_combo == c)),
                forall|c: ComboView| #[trigger]
                    keyed_map(bind@).contains_key(c) ==> keyed_map(bind@)[c] == baseline_as_binding(rb[c]),
            decreases ov@.len() - i,
        {
            let c = &ov[i].key_combo;
            let ghost cv = c@;
            assert(ov@[i as int]@.key_combo == cv);
            proof {
                lemma_keyed_dom(ov@, cv);
            }
            if !self.replaced_baseline.contains_key(c) {
                match self.baseline_bindings.get(c) {
                    Some(base) => {
                        let nb = base.to_binding();
                        proof {
                            assert forall|j: int| 0 <= j < i implies #[trigger] ov@[j]@.key_combo != cv by {
                            }
                            assert(!keyed_map(bind@).contains_key(cv));
                            assert(rb.contains_key(cv));
                            assert(rb[cv] == self.baselines()[cv]);
                        }
                        insert_sorted_keyed(&mut bind, nb);
                    },
                    None => {},
                }
            }
            i = i + 1;
        }
        proof {
            assert forall|c: ComboView| #[trigger]
                keyed_map(bind@).contains_key(c) <==> rb.contains_key(c) by {
                lemma_keyed_dom(ov@, c);
            }
        }
        SwitchPlan { target_profile: owned("native"), unbind, bind }
    }

    /// Clears every overlay and displaced baseline; the active profile
    /// becomes `native`.
    pub fn commit_restore(&mut self)
        requires
            old(self).wf(),
        ensures
            final(self).wf(),
            final(self).overlays() == Map::<ComboView, BindingView>::empty(),
            final(self).replaced() == Map::<ComboView, BaselineView>::empty(),
            final(self).active_name() == "native"@,
            final(self).profile_list() == old(self).profile_list(),
            final(self).baselines() == old(self).baselines(),
            keeps_records(*old(self), *final(self)),
    {
        self.active_overlays.clear();
        self.replaced_baseline.clear();
        self.active_profile = owned("native");
    }
}


/// The last valid profile named `n` among `ps`.
pub open spec fn last_valid_named(ps: Seq<Profile>, n: Seq<char>) -> Option<Profile>
    decreases ps.len(),
{
    if ps.len() == 0 {
        None
    } else if crate::profile::is_valid_profile(ps.last()) && ps.last().name@ == n {
        Some(ps.last())
    } else {
        last_valid_named(ps.drop_last(), n)
    }
}

/// How many of `ps` are valid.
pub open spec fn valid_count(ps: Seq<Profile>) -> nat
    decreases ps.len(),
{
    if ps.len() == 0 {
        0
    } else {
        valid_count(ps.drop_last()) + if crate::profile::is_valid_profile(ps.last()) {
            1nat
        } else {
            0nat
        }
    }
}

impl StateManager {
    /// Registers, in order, each of `loaded` that passes validation (a later
    /// one replacing an earlier one of the same name); tells how many were
    /// registered.
    pub fn load_profiles(&mut self, loaded: Vec<Profile>) -> (r: usize)
        requires
            old(self).wf(),
        ensures
            final(self).wf(),
            r == valid_count(loaded@),
            forall|n: Seq<char>|
                #[trigger] profile_named(final(self).profile_list(), n) === match last_valid_named(
                    loaded@,
                    n,
                ) {
                    Some(p) => Some(p),
                    None => profile_named(old(self).profile_list(), n),
                },
            final(self).active_name() == old(self).active_name(),
            final(self).overlays() == old(self).overlays(),
            final(self).baselines() == old(self).baselines(),
            final(self).replaced() == old(self).replaced(),
            final(self).policy() == old(self).policy(),
            final(self).history() == old(self).history(),
            final(self).next_sequence() == old(self).next_sequence(),
            final(self).report() == old(self).report(),
            final(self).skipped_total() == old(self).skipped_total(),
            final(self).forced_total() == old(self).forced_total(),
    {
        let ghost s0 = *self;
        let ghost all = loaded@;
        let total = loaded.len();
        let mut rest = loaded;
        let mut count: usize = 0;
        let mut i: usize = 0;
        while rest.len() > 0
            invariant
                self.wf(),
                i <= all.len(),
                all.len() == total,
                rest@ == all.skip(i as int),
                count == valid_count(all.take(i as int)),
                count <= i,
                forall|n: Seq<char>|
                    #[trigger] profile_named(self.profile_list(), n) === match last_valid_named(
                        all.take(i as int),
                        n,
                    ) {
                        Some(p) => Some(p),
                        None => profile_named(s0.profile_list(), n),
                    },
                self.active_name() == s0.active_name(),
                self.overlays() == s0.overlays(),
                self.baselines() == s0.baselines(),
                self.replaced() == s0.replaced(),
                self.policy() == s0.policy(),
                self.report() == s0.report(),
                self.skipped_total() == s0.skipped_total(),
                self.forced_total() == s0.forced_total(),
                self.history() == s0.history(),
                self.next_sequence() == s0.next_sequence(),
            decreases rest@.len(),
        {
            let p = rest.remove(0);
            let ghost pv = p;
            assert(pv == all[i as int]);
            let ghost before = all.take(i as int);
            assert(all.take(i + 1).drop_last() =~= before);
            assert(all.take(i + 1).last() == pv);
            let ok = match p.validate() {
                Ok(()) => true,
                Err(_) => false,
            };
            assert(ok == crate::profile::is_valid_profile(pv));
            if ok {
                self.register_profile(p);
                count = count + 1;
            }
            i = i + 1;
            assert(rest@ =~= all.skip(i as int));
        }
        assert(all.take(i as int) =~= all);
        count
    }
}

/// Whether a profile edit changed nothing but the named profile's bindings
/// to `bs`.
pub open spec fn edited_to(before: Seq<Profile>, after: Seq<Profile>, name: Seq<char>, bs: Seq<BindingView>) -> bool {
    &&& names_sorted(after)
    &&& forall|n: Seq<char>| n != name ==> profile_named(after, n) === profile_named(before, n)
    &&& match (profile_named(before, name), profile_named(after, name)) {
        (Some(p), Some(q)) => {
            &&& q.name == p.name
            &&& q.description == p.description
            &&& q.priority == p.priority
            &&& q.conflicts_policy == p.conflicts_policy
            &&& q.window_policy == p.window_policy
            &&& binding_views(q.bindings@) == bs
        },
        _ => false,
    }
}

/// The outcome of re-validating an edited profile named `name`.
pub open spec fn edit_validation(name: Seq<char>, bs: Seq<BindingView>, r: Result<(), CoreError>) -> bool {
    crate::profile::validation_result(
        name,
        bs.map_values(|b: BindingView| canonical(b.key_combo)),
        r,
    )
}

/// What `StateManager::create_profile` guarantees, from state `s0` to state `s1`
/// with result `r`.
/// The description of a profile created with `description`, copying
/// `copy_from` when given.
pub open spec fn created_description(ps: Seq<Profile>, description: Option<&str>, copy_from: Option<&str>) -> Seq<char> {
    match description {
        Some(d) => d@,
        None => match copy_from {
            Some(src) => profile_named(ps, src@)->0.description@,
            None => Seq::<char>::empty(),
        },
    }
}

/// The bindings of a profile created copying `copy_from` when given.
pub open spec fn created_bindings(ps: Seq<Profile>, copy_from: Option<&str>) -> Seq<BindingView> {
    match copy_from {
        Some(src) => binding_views(profile_named(ps, src@)->0.bindings@),
        None => Seq::<BindingView>::empty(),
    }
}

/// What a new manager holds: the built-in presets, `native` active, no
/// overlays, baseline or history, an empty report and the `omarchy` window
/// policy.
pub open spec fn initial_state(s: StateManager) -> bool {
    &&& s.active_name() == "native"@
    &&& s.overlays() == Map::<ComboView, BindingView>::empty()
    &&& s.baselines() == Map::<ComboView, BaselineView>::empty()
    &&& s.replaced() == Map::<ComboView, BaselineView>::empty()
    &&& s.policy() == WindowPolicy::Omarchy
    &&& s.history().len() == 0
    &&& s.next_sequence() == 1
    &&& s.skipped_total() == 0
    &&& s.forced_total() == 0
    &&& s.report().entries@.len() == 0
    &&& s.report().applied == 0
    &&& s.report().skipped == 0
    &&& s.report().forced == 0
    &&& profile_named(s.profile_list(), "native"@) matches Some(p) && p.bindings@.len() == 0
    &&& profile_named(s.profile_list(), "windows"@) matches Some(p) && p.bindings@.len() == 17
        && p.bindings@.map_values(|b: Binding| b@) == crate::presets::windows_bindings()
        && distinct_keys(p.bindings@)
    &&& profile_named(s.profile_list(), "macos"@) matches Some(p) && p.bindings@.len() == 15
        && p.bindings@.map_values(|b: Binding| b@) == crate::presets::macos_bindings()
        && distinct_keys(p.bindings@)
    &&& profile_named(s.profile_list(), "hybrid"@) matches Some(p) && p.bindings@.len() == 12
        && p.bindings@.map_values(|b: Binding| b@) == crate::presets::hybrid_bindings()
        && distinct_keys(p.bindings@)
}

/// Whether `s1` keeps the records of `s0` that only switches and history
/// updates change: the window policy, the history and its next sequence,
/// the last conflict report and the conflict totals.
pub open spec fn keeps_records(s0: StateManager, s1: StateManager) -> bool {
    &&& s1.policy() == s0.policy()
    &&& s1.history() == s0.history()
    &&& s1.next_sequence() == s0.next_sequence()
    &&& s1.report() == s0.report()
    &&& s1.skipped_total() == s0.skipped_total()
    &&& s1.forced_total() == s0.forced_total()
}

pub open spec fn create_profile_post(s0: StateManager, s1: StateManager, name: &str, description: Option<&str>, copy_from: Option<&str>, r: Result<(), CoreError>) -> bool {
    &&& keeps_records(s0, s1)
    &&& s1.active_name() == s0.active_name()
    &&& s1.overlays() == s0.overlays()
    &&& s1.baselines() == s0.baselines()
    &&& s1.replaced() == s0.replaced()
    &&& ({
        let t = crate::text::trim(name@);
        let ps = s0.profile_list();
        if t.len() == 0 {
            &&& r matches Err(CoreError::Validation { profile, message })
            &&& profile@ == name@ && message@ == "Profile name cannot be empty"@
            &&& s1.profile_list() == ps
        } else if has_profile(ps, t) {
            &&& r matches Err(CoreError::Validation { profile, message })
            &&& profile@ == t && message@ == "Profile '"@ + t + "' already exists"@
            &&& s1.profile_list() == ps
        } else if copy_from matches Some(src) && !has_profile(ps, src@) {
            &&& r matches Err(CoreError::ProfileNotFound(n))
            &&& n@ == copy_from->0@
            &&& s1.profile_list() == ps
        } else {
            let desc = created_description(ps, description, copy_from);
            let bs = created_bindings(ps, copy_from);
            let cs = bs.map_values(|b: BindingView| canonical(b.key_combo));
            &&& crate::profile::validation_result(t, cs, r)
            &&& r is Err ==> s1.profile_list() == ps
            &&& r is Ok ==> {
                &&& profile_named(s1.profile_list(), t) matches Some(p)
                &&& p.name@ == t
                &&& p.description@ == desc
                &&& binding_views(p.bindings@) == bs
                &&& p.priority is None
                &&& p.conflicts_policy is None
                &&& p.window_policy is None
                &&& forall|n: Seq<char>|
                    n != t ==> profile_named(s1.profile_list(), n) === profile_named(ps, n)
            }
        }
    })
}

/// What `StateManager::update_binding` guarantees, from state `s0` to state `s1`
/// with result `r`.
pub open spec fn update_binding_post(s0: StateManager, s1: StateManager, profile_name: &str, key_combo: &str, action: &str, description: Option<&str>, r: Result<Option<SwitchPlan>, CoreError>) -> bool {
    &&& keeps_records(s0, s1)
    &&& s1.active_name() == s0.active_name()
    &&& s1.baselines() == s0.baselines()
    &&& s1.replaced() == s0.replaced()
    &&& match crate::binding::spec_parse_combo(key_combo@) {
        None => r matches Err(e) && crate::binding::combo_parse_error(key_combo@, e)
            && s1.profile_list() == s0.profile_list()
            && s1.overlays() == s0.overlays(),
        Some(cv) => match crate::binding::spec_parse_action_text(action@) {
            Err(why) => r matches Err(CoreError::InvalidAction { raw, reason }) && raw@
                == action@ && reason@ == why && s1.profile_list() == s0.profile_list() && s1.overlays() == s0.overlays(),
            Ok(av) => match profile_named(s0.profile_list(), profile_name@) {
                None => r matches Err(CoreError::ProfileNotFound(n)) && n@ == profile_name@
                    && s1.profile_list() == s0.profile_list()
                    && s1.overlays() == s0.overlays(),
                Some(p) => {
                    let nb = BindingView {
                        key_combo: cv,
                        action: av,
                        description: match description {
                            Some(d) => Some(d@),
                            None => None,
                        },
                    };
                    let bs = updated_bindings(binding_views(p.bindings@), nb);
                    let is_active = profile_name@ == s0.active_name();
                    &&& edited_to(s0.profile_list(), s1.profile_list(), profile_name@, bs)
                    &&& r is Err ==> (r matches Err(e) && edit_validation(p.name@, bs, Err(e))
                        && s1.overlays() == s0.overlays())
                    &&& r is Ok ==> edit_validation(p.name@, bs, Ok(()))
                    &&& (r is Ok && !is_active) ==> (r matches Ok(x) && x is None
                        && s1.overlays() == s0.overlays())
                    &&& (r is Ok && is_active) ==> (r matches Ok(Some(plan)) && {
                        &&& plan.target_profile@ == profile_name@
                        &&& binding_views(plan.bind@) == seq![nb]
                        &&& plan.unbind@.len() == (if first_combo_index(
                            binding_views(p.bindings@),
                            cv,
                        ) matches Some(i) && binding_views(p.bindings@)[i].action != av {
                            1int
                        } else {
                            0int
                        })
                        &&& plan.unbind@.len() == 1 ==> plan.unbind@[0]@ == cv
                        &&& s1.overlays() == s0.overlays().insert(cv, nb)
                    })
                },
            },
        },
    }
}

impl StateManager {
    /// A manager with the built-in profiles (`native`, `windows`, `macos`,
    /// `hybrid`) registered, `native` active, and no overlays or baseline.
    pub fn new() -> (r: StateManager)
        ensures
            r.wf(),
            initial_state(r),
    {
        let mut mgr = StateManager {
            profiles: Vec::new(),
            active_profile: owned("native"),
            active_overlays: ComboMap::new(),
            baseline_bindings: ComboMap::new(),
            replaced_baseline: ComboMap::new(),
            last_conflict_report: ConflictReport::default(),
            total_skipped_conflicts: 0,
            total_forced_overrides: 0,
            window_policy: WindowPolicy::Omarchy,
            switch_history: Vec::new(),
            next_history_sequence: 1,
        };
        proof {
            reveal_strlit("native");
            reveal_strlit("windows");
            reveal_strlit("macos");
            reveal_strlit("hybrid");
            assert("native"@[0] != "windows"@[0]);
            assert("native"@[0] != "macos"@[0]);
            assert("native"@[0] != "hybrid"@[0]);
            assert("windows"@[0] != "macos"@[0]);
            assert("windows"@[0] != "hybrid"@[0]);
            assert("macos"@[0] != "hybrid"@[0]);
        }
        mgr.register_profile(crate::presets::native_preset());
        mgr.register_profile(crate::presets::windows_preset());
        mgr.register_profile(crate::presets::macos_preset());
        mgr.register_profile(crate::presets::hybrid_preset());
        mgr
    }

    /// Creates a profile named by the trimmed `name`, empty or copying the
    /// bindings (and, unless one is given, the description) of `copy_from`.
    pub fn create_profile(&mut self, name: &str, description: Option<&str>, copy_from: Option<&str>) -> (r:
        Result<(), CoreError>)
        requires
            old(self).wf(),
        ensures
            final(self).wf(),
            create_profile_post(*old(self), *final(self), name, description, copy_from, r),
    {
        let name_chars = chars_of(name);
        let tv = crate::text::trim_chars(&name_chars);
        if tv.len() == 0 {
            return Err(
                CoreError::Validation {
                    profile: owned(name),
                    message: owned("Profile name cannot be empty"),
                },
            );
        }
        let trimmed = crate::text::string_of(&tv);
        if self.find_profile(trimmed.as_str()).is_some() {
            return Err(
                CoreError::Validation {
                    profile: trimmed.clone(),
                    message: concat3("Profile '", trimmed.as_str(), "' already exists"),
                },
            );
        }
        let (desc, bindings) = match copy_from {
            Some(src) => {
                match self.find_profile(src) {
                    None => {
                        return Err(CoreError::ProfileNotFound(owned(src)));
                    },
                    Some(si) => {
                        let sp = &self.profiles[si];
                        let d = match description {
                            Some(d) => owned(d),
                            None => sp.description.clone(),
                        };
                        (d, clone_bindings(&sp.bindings))
                    },
                }
            },
            None => {
                let d = match description {
                    Some(d) => owned(d),
                    None => String::new(),
                };
                (d, Vec::new())
            },
        };
        let profile = Profile::new(trimmed.as_str(), desc.as_str(), bindings);
        let ghost bs = binding_views(profile.bindings@);
        proof {
            assert(bs =~= created_bindings(old(self).profile_list(), copy_from));
            assert(crate::profile::canon_seq(profile.bindings@) =~= bs.map_values(
                |b: BindingView| canonical(b.key_combo),
            ));
        }
        match profile.validate() {
            Err(e) => {
                return Err(e);
            },
            Ok(()) => {},
        }
        self.register_profile(profile);
        proof {
            assert(desc@ == created_description(old(self).profile_list(), description, copy_from));
        }
        Ok(())
    }

    /// Index of the first binding for `c` in `bs`, if any.
    fn find_binding(bs: &Vec<Binding>, c: &KeyCombo) -> (r: Option<usize>)
        ensures
            match r {
                Some(i) => i < bs@.len() && first_combo_index(binding_views(bs@), c@) == Some(i as int),
                None => first_combo_index(binding_views(bs@), c@) is None,
            },
    {
        let ghost vs = binding_views(bs@);
        let mut i: usize = 0;
        while i < bs.len()
            invariant
                i <= bs@.len(),
                vs == binding_views(bs@),
                forall|j: int| 0 <= j < i ==> #[trigger] vs[j].key_combo != c@,
            decreases bs@.len() - i,
        {
            if bs[i].key_combo.same(c) {
                proof {
                    lemma_first_combo_index(vs, c@, i as int);
                }
                return Some(i);
            }
            i = i + 1;
        }
        proof {
            lemma_first_combo_index(vs, c@, i as int);
        }
        None
    }

    /// Binds `key_combo` to `action` (with an optional description) in
    /// profile `profile_name`, replacing the first binding of that combo or
    /// appending. When the profile is active, the overlay is updated too and
    /// the incremental plan is returned: the new binding, after unbinding the
    /// combo if it was bound to another action.
    pub fn update_binding(
        &mut self,
        profile_name: &str,
        key_combo: &str,
        action: &str,
        description: Option<&str>,
    ) -> (r: Result<Option<SwitchPlan>, CoreError>)
        requires
            old(self).wf(),
        ensures
            final(self).wf(),
            update_binding_post(*old(self), *final(self), profile_name, key_combo, action, description, r),
    {
        let combo = match KeyCombo::parse(key_combo) {
            Ok(c) => c,
            Err(e) => {
                return Err(e);
            },
        };
        let act = match Action::parse(action) {
            Ok(a) => a,
            Err(e) => {
                return Err(e);
            },
        };
        let pi = match self.find_profile(profile_name) {
            None => {
                return Err(CoreError::ProfileNotFound(owned(profile_name)));
            },
            Some(i) => i,
        };
        let ghost ps0 = self.profiles@;
        let ghost p0 = ps0[pi as int];
        let mut binding = Binding::new(combo.duplicate(), act);
        match description {
            Some(d) => {
                binding = binding.with_description(d);
            },
            None => {},
        }
        let ghost nb = binding@;
        let is_active = str_eq(profile_name, self.active_profile.as_str());
        let mut profile = self.profiles.remove(pi);
        let ghost old_views = binding_views(profile.bindings@);
        let mut old_action: Option<Action> = None;
        match Self::find_binding(&profile.bindings, &combo) {
            Some(idx) => {
                old_action = Some(profile.bindings[idx].action.duplicate());
                profile.bindings.set(idx, binding.duplicate());
                proof {
                    assert(binding_views(profile.bindings@) =~= old_views.update(idx as int, nb));
                }
            },
            None => {
                profile.bindings.push(binding.duplicate());
                proof {
                    assert(binding_views(profile.bindings@) =~= old_views.push(nb));
                }
            },
        }
        let ghost bs = binding_views(profile.bindings@);
        proof {
            assert(crate::profile::canon_seq(profile.bindings@) =~= bs.map_values(
                |b: BindingView| canonical(b.key_combo),
            ));
        }
        let valid = profile.validate();
        self.profiles.insert(pi, profile);
        proof {
            let s = self.profiles@;
            assert(s =~= ps0.update(pi as int, s[pi as int]));
            assert forall|a: int, b: int| 0 <= a < b < s.len() implies seq_lt(
                #[trigger] s[a].name@,
                #[trigger] s[b].name@,
            ) by {
                assert(s[a].name == ps0[a].name);
                assert(s[b].name == ps0[b].name);
            }
            lemma_profile_named(s, profile_name@, pi as int);
            assert forall|n: Seq<char>| n != profile_name@ implies profile_named(s, n)
                === profile_named(ps0, n) by {
                if has_profile(ps0, n) {
                    let j = profile_index(ps0, n);
                    lemma_profile_named(ps0, n, j);
                    assert(j != pi);
                    assert(s[j] == ps0[j]);
                    lemma_profile_named(s, n, j);
                } else {
                    assert forall|j: int| 0 <= j < s.len() implies #[trigger] s[j].name@ != n by {
                        assert(s[j].name == ps0[j].name);
                    }
                }
            }
        }
        match valid {
            Err(e) => {
                return Err(e);
            },
            Ok(()) => {},
        }
        if is_active {
            self.active_overlays.insert(binding.duplicate());
            let mut unbind: Vec<KeyCombo> = Vec::new();
            match old_action {
                Some(prev) => {
                    if !prev.same(&binding.action) {
                        unbind.push(combo.duplicate());
                    }
                },
                None => {},
            }
            let mut bind: Vec<Binding> = Vec::new();
            bind.push(binding);
            proof {
                assert(binding_views(bind@) =~= seq![nb]);
            }
            Ok(Some(SwitchPlan { target_profile: owned(profile_name), unbind, bind }))
        } else {
            Ok(None)
        }
    }
}


/// The bindings left after removing every binding of combo `c`.
pub open spec fn without_combo(bs: Seq<BindingView>, c: ComboView) -> Seq<BindingView>
    decreases bs.len(),
{
    if bs.len() == 0 {
        seq![]
    } else {
        let r = without_combo(bs.drop_last(), c);
        if bs.last().key_combo == c {
            r
        } else {
            r.push(bs.last())
        }
    }
}

/// Whether two history entries hold the same values.
pub open spec fn same_entry(a: HistoryEntry, b: HistoryEntry) -> bool {
    &&& a.sequence == b.sequence
    &&& a.unix_ms == b.unix_ms
    &&& a.profile@ == b.profile@
    &&& a.succeeded == b.succeeded
    &&& a.duration_us == b.duration_us
    &&& a.applied == b.applied
    &&& a.skipped == b.skipped
    &&& a.forced == b.forced
    &&& opt_view(a.error) == opt_view(b.error)
}

fn copy_entry(e: &HistoryEntry) -> (r: HistoryEntry)
    ensures
        same_entry(r, *e),
{
    HistoryEntry {
        sequence: e.sequence,
        unix_ms: e.unix_ms,
        profile: e.profile.clone(),
        succeeded: e.succeeded,
        duration_us: e.duration_us,
        applied: e.applied,
        skipped: e.skipped,
        forced: e.forced,
        error: clone_opt(&e.error),
    }
}

/// What `StateManager::remove_binding` guarantees, from state `s0` to state `s1`
/// with result `r`.
pub open spec fn remove_binding_post(s0: StateManager, s1: StateManager, profile_name: &str, key_combo: &str, r: Result<Option<SwitchPlan>, CoreError>) -> bool {
    &&& keeps_records(s0, s1)
    &&& s1.active_name() == s0.active_name()
    &&& s1.baselines() == s0.baselines()
    &&& s1.replaced() == s0.replaced()
    &&& match crate::binding::spec_parse_combo(key_combo@) {
        None => r matches Err(e) && crate::binding::combo_parse_error(key_combo@, e)
            && s1.profile_list() == s0.profile_list()
            && s1.overlays() == s0.overlays(),
        Some(cv) => match profile_named(s0.profile_list(), profile_name@) {
            None => r matches Err(CoreError::ProfileNotFound(n)) && n@ == profile_name@
                && s1.profile_list() == s0.profile_list()
                && s1.overlays() == s0.overlays(),
            Some(p) => if forall|j: int|
                0 <= j < p.bindings@.len() ==> #[trigger] p.bindings@[j]@.key_combo != cv {
                &&& r matches Err(CoreError::Validation { profile, message })
                &&& profile@ == profile_name@
                &&& message@ == "Key combo '"@ + canonical(cv) + "' not found in profile '"@
                    + profile_name@ + "'"@
                &&& s1.profile_list() == s0.profile_list()
                &&& s1.overlays() == s0.overlays()
            } else {
                &&& edited_to(
                    s0.profile_list(),
                    s1.profile_list(),
                    profile_name@,
                    without_combo(binding_views(p.bindings@), cv),
                )
                &&& profile_name@ == s0.active_name() ==> (r matches Ok(Some(plan))
                    && plan.target_profile@ == profile_name@ && plan.unbind@.len() == 1
                    && plan.unbind@[0]@ == cv && plan.bind@.len() == 0
                    && s1.overlays() == s0.overlays().remove(cv))
                &&& profile_name@ != s0.active_name() ==> (r matches Ok(x) && x is None
                    && s1.overlays() == s0.overlays())
            },
        },
    }
}

/// What `StateManager::delete_profile` guarantees, from state `s0` to state `s1`
/// with result `r`.
pub open spec fn delete_profile_post(s0: StateManager, s1: StateManager, profile_name: &str, r: Result<(), CoreError>) -> bool {
    &&& keeps_records(s0, s1)
    &&& s1.active_name() == s0.active_name()
    &&& s1.overlays() == s0.overlays()
    &&& s1.baselines() == s0.baselines()
    &&& s1.replaced() == s0.replaced()
    &&& if profile_name@ == "native"@ {
        r matches Err(CoreError::ProtectedProfile(n)) && n@ == "native"@
            && s1.profile_list() == s0.profile_list()
    } else if !has_profile(s0.profile_list(), profile_name@) {
        r matches Err(CoreError::ProfileNotFound(n)) && n@ == profile_name@
            && s1.profile_list() == s0.profile_list()
    } else if s0.active_name() == profile_name@ {
        &&& r matches Err(CoreError::Validation { profile, message })
        &&& profile@ == profile_name@
        &&& message@ == "Cannot delete currently active profile '"@ + profile_name@
            + "'. Switch or restore first."@
        &&& s1.profile_list() == s0.profile_list()
    } else {
        &&& r is Ok
        &&& !has_profile(s1.profile_list(), profile_name@)
        &&& forall|n: Seq<char>|
            n != profile_name@ ==> profile_named(s1.profile_list(), n)
                === profile_named(s0.profile_list(), n)
    }
}

impl StateManager {
    /// Removes every binding of `key_combo` from profile `profile_name`.
    /// When the profile is active, its overlay is removed too and the plan
    /// unbinding the combo is returned.
    pub fn remove_binding(&mut self, profile_name: &str, key_combo: &str) -> (r: Result<
        Option<SwitchPlan>,
        CoreError,
    >)
        requires
            old(self).wf(),
        ensures
            final(self).wf(),
            remove_binding_post(*old(self), *final(self), profile_name, key_combo, r),
    {
        let combo = match KeyCombo::parse(key_combo) {
            Ok(c) => c,
            Err(e) => {
                return Err(e);
            },
        };
        let pi = match self.find_profile(profile_name) {
            None => {
                return Err(CoreError::ProfileNotFound(owned(profile_name)));
            },
            Some(i) => i,
        };
        let ghost ps0 = self.profiles@;
        let found = Self::find_binding(&self.profiles[pi].bindings, &combo);
        let ghost vs0 = binding_views(self.profiles@[pi as int].bindings@);
        if found.is_none() {
            proof {
                let p = ps0[pi as int];
                assert forall|j: int| 0 <= j < p.bindings@.len() implies #[trigger] p.bindings@[j]@.key_combo != combo@ by {
                    assert(vs0[j] == p.bindings@[j]@);
                    lemma_no_first_index(vs0, combo@, j);
                }
            }
            let c = combo.canonical_str();
            let mut message = concat3("Key combo '", c.as_str(), "' not found in profile '");
            crate::text::push_str(&mut message, profile_name);
            crate::text::push_str(&mut message, "'");
            return Err(CoreError::Validation { profile: owned(profile_name), message });
        }
        let mut profile = self.profiles.remove(pi);
        let mut kept: Vec<Binding> = Vec::new();
        let mut i: usize = 0;
        while i < profile.bindings.len()
            invariant
                i <= profile.bindings@.len(),
                binding_views(profile.bindings@) == vs0,
                binding_views(kept@) == without_combo(vs0.take(i as int), combo@),
            decreases profile.bindings@.len() - i,
        {
            assert(vs0.take((i + 1) as int).drop_last() =~= vs0.take(i as int));
            assert(vs0.take((i + 1) as int).last() == profile.bindings@[i as int]@);
            if !profile.bindings[i].key_combo.same(&combo) {
                let ghost before = binding_views(kept@);
                kept.push(profile.bindings[i].duplicate());
                assert(binding_views(kept@) =~= before.push(profile.bindings@[i as int]@));
            }
            i = i + 1;
        }
        assert(vs0.take(vs0.len() as int) =~= vs0);
        profile.bindings = kept;
        self.profiles.insert(pi, profile);
        proof {
            let s = self.profiles@;
            assert(s =~= ps0.update(pi as int, s[pi as int]));
            assert forall|a: int, b: int| 0 <= a < b < s.len() implies seq_lt(
                #[trigger] s[a].name@,
                #[trigger] s[b].name@,
            ) by {
                assert(s[a].name == ps0[a].name);
                assert(s[b].name == ps0[b].name);
            }
            lemma_profile_named(s, profile_name@, pi as int);
            lemma_profile_named(ps0, profile_name@, pi as int);
            assert forall|n: Seq<char>| n != profile_name@ implies profile_named(s, n)
                === profile_named(ps0, n) by {
                if has_profile(ps0, n) {
                    let j = profile_index(ps0, n);
                    lemma_profile_named(ps0, n, j);
                    assert(s[j] == ps0[j]);
                    lemma_profile_named(s, n, j);
                } else {
                    assert forall|j: int| 0 <= j < s.len() implies #[trigger] s[j].name@ != n by {
                        assert(s[j].name == ps0[j].name);
                    }
                }
            }
            let k = first_combo_index(vs0, combo@)->0;
            lemma_first_combo_index_found(vs0, combo@);
            assert(ps0[pi as int].bindings@[k]@.key_combo == combo@);
        }
        if str_eq(profile_name, self.active_profile.as_str()) {
            self.active_overlays.remove(&combo);
            let mut unbind: Vec<KeyCombo> = Vec::new();
            unbind.push(combo);
            Ok(Some(SwitchPlan { target_profile: owned(profile_name), unbind, bind: Vec::new() }))
        } else {
            Ok(None)
        }
    }

    /// Forgets profile `profile_name`; `native` and the active profile
    /// cannot be deleted.
    pub fn delete_profile(&mut self, profile_name: &str) -> (r: Result<(), CoreError>)
        requires
            old(self).wf(),
        ensures
            final(self).wf(),
            delete_profile_post(*old(self), *final(self), profile_name, r),
    {
        if str_eq(profile_name, "native") {
            return Err(CoreError::ProtectedProfile(owned("native")));
        }
        let pi = match self.find_profile(profile_name) {
            None => {
                return Err(CoreError::ProfileNotFound(owned(profile_name)));
            },
            Some(i) => i,
        };
        if str_eq(self.active_profile.as_str(), profile_name) {
            let mut message = concat3(
                "Cannot delete currently active profile '",
                profile_name,
                "'. Switch or restore first.",
            );
            return Err(CoreError::Validation { profile: owned(profile_name), message });
        }
        let ghost ps0 = self.profiles@;
        self.profiles.remove(pi);
        proof {
            let s = self.profiles@;
            assert(s =~= ps0.remove(pi as int));
            assert forall|a: int, b: int| 0 <= a < b < s.len() implies seq_lt(
                #[trigger] s[a].name@,
                #[trigger] s[b].name@,
            ) by {
                let a0 = if a < pi { a } else { a + 1 };
                let b0 = if b < pi { b } else { b + 1 };
                assert(s[a] == ps0[a0]);
                assert(s[b] == ps0[b0]);
            }
            assert forall|j: int| 0 <= j < s.len() implies #[trigger] s[j].name@ != profile_name@ by {
                let j0 = if j < pi { j } else { j + 1 };
                assert(s[j] == ps0[j0]);
                assert(j0 != pi);
                if j0 < pi {
                    assert(seq_lt(ps0[j0].name@, ps0[pi as int].name@));
                } else {
                    assert(seq_lt(ps0[pi as int].name@, ps0[j0].name@));
                }
                lemma_seq_lt_irreflexive(profile_name@);
            }
            assert forall|n: Seq<char>| n != profile_name@ implies profile_named(s, n)
                === profile_named(ps0, n) by {
                if has_profile(ps0, n) {
                    let j = profile_index(ps0, n);
                    lemma_profile_named(ps0, n, j);
                    assert(j != pi);
                    let j1 = if j < pi { j } else { j - 1 };
                    assert(s[j1] == ps0[j]);
                    lemma_profile_named(s, n, j1);
                } else {
                    assert forall|j: int| 0 <= j < s.len() implies #[trigger] s[j].name@ != n by {
                        let j0 = if j < pi { j } else { j + 1 };
                        assert(s[j] == ps0[j0]);
                    }
                }
            }
        }
        Ok(())
    }

    /// Appends a history record (numbered from the running sequence) made
    /// at `unix_ms`; only the newest 256 records are kept.
    pub fn record_switch_history(
        &mut self,
        unix_ms: u128,
        profile: &str,
        succeeded: bool,
        duration_us: u128,
        applied: usize,
        skipped: usize,
        forced: usize,
        error: Option<String>,
    )
        requires
            old(self).wf(),
            old(self).next_sequence() < u64::MAX,
        ensures
            final(self).wf(),
            final(self).next_sequence() == old(self).next_sequence() + 1,
            final(self).history().len() > 0,
            final(self).history().len() <= 256,
            final(self).history().len() == if old(self).history().len() + 1 > 256 {
                256
            } else {
                old(self).history().len() + 1
            },
            final(self).policy() == old(self).policy(),
            final(self).report() == old(self).report(),
            final(self).skipped_total() == old(self).skipped_total(),
            final(self).forced_total() == old(self).forced_total(),
            final(self).history().drop_last() == if old(self).history().len() + 1 > 256 {
                old(self).history().skip(1)
            } else {
                old(self).history()
            },
            ({
                let e = final(self).history().last();
                &&& e.sequence == old(self).next_sequence()
                &&& e.unix_ms == unix_ms
                &&& e.profile@ == profile@
                &&& e.succeeded == succeeded
                &&& e.duration_us == duration_us
                &&& e.applied == applied
                &&& e.skipped == skipped
                &&& e.forced == forced
                &&& e.error == error
            }),
            final(self).profile_list() == old(self).profile_list(),
            final(self).active_name() == old(self).active_name(),
            final(self).overlays() == old(self).overlays(),
            final(self).baselines() == old(self).baselines(),
            final(self).replaced() == old(self).replaced(),
    {
        let sequence = self.next_history_sequence;
        self.next_history_sequence = self.next_history_sequence + 1;
        let ghost h0 = self.switch_history@;
        self.switch_history.push(
            HistoryEntry {
                sequence,
                unix_ms,
                profile: owned(profile),
                succeeded,
                duration_us,
                applied,
                skipped,
                forced,
                error,
            },
        );
        if self.switch_history.len() > 256 {
            let ghost h1 = self.switch_history@;
            self.switch_history.remove(0);
            assert(self.switch_history@ =~= h1.skip(1));
            assert(self.switch_history@.drop_last() =~= h0.skip(1));
        } else {
            assert(self.switch_history@.drop_last() =~= h0);
        }
        proof {
            let h = self.switch_history@;
            assert forall|i: int, j: int| 0 <= i < j < h.len() implies #[trigger] h[i].sequence < #[trigger] h[j].sequence by {
                if j < h.len() - 1 {
                    assert(h[i] == h.drop_last()[i]);
                    assert(h[j] == h.drop_last()[j]);
                } else {
                    assert(h[i] == h.drop_last()[i]);
                }
            }
            assert forall|i: int| 0 <= i < h.len() implies #[trigger] h[i].sequence < self.next_history_sequence by {
                if i < h.len() - 1 {
                    assert(h[i] == h.drop_last()[i]);
                }
            }
        }
    }

    /// The newest `limit` (by default 20) history records, newest first.
    pub fn switch_history(&self, limit: Option<usize>) -> (r: Vec<HistoryEntry>)
        ensures
            ({
                let h = self.history();
                let want = match limit {
                    Some(l) => l as int,
                    None => 20int,
                };
                let count = if want < h.len() {
                    want
                } else {
                    h.len() as int
                };
                &&& r@.len() == count
                &&& forall|i: int| 0 <= i < count ==> same_entry(#[trigger] r@[i], h[h.len() - 1 - i])
            }),
            self.wf() ==> forall|i: int, j: int|
                0 <= i < j < r@.len() ==> #[trigger] r@[i].sequence > #[trigger] r@[j].sequence,
    {
        let want = match limit {
            Some(l) => l,
            None => 20,
        };
        let n = self.switch_history.len();
        let count = if want < n {
            want
        } else {
            n
        };
        let mut out: Vec<HistoryEntry> = Vec::new();
        let mut i: usize = 0;
        while i < count
            invariant
                i <= count,
                count <= n,
                n == self.switch_history@.len(),
                out@.len() == i,
                forall|j: int| 0 <= j < i ==> same_entry(#[trigger] out@[j], self.switch_history@[n - 1 - j]),
            decreases count - i,
        {
            out.push(copy_entry(&self.switch_history[n - 1 - i]));
            i = i + 1;
        }
        out
    }
}

proof fn lemma_no_first_index(bs: Seq<BindingView>, c: ComboView, j: int)
    requires
        first_combo_index(bs, c) is None,
        0 <= j < bs.len(),
    ensures
        bs[j].key_combo != c,
    decreases bs.len(),
{
    if j < bs.len() - 1 {
        assert(bs.drop_last()[j] == bs[j]);
        lemma_no_first_index(bs.drop_last(), c, j);
    }
}

proof fn lemma_first_combo_index_found(bs: Seq<BindingView>, c: ComboView)
    requires
        first_combo_index(bs, c) is Some,
    ensures
        0 <= first_combo_index(bs, c)->0 < bs.len(),
        bs[first_combo_index(bs, c)->0].key_combo == c,
    decreases bs.len(),
{
    if first_combo_index(bs.drop_last(), c) is Some {
        lemma_first_combo_index_found(bs.drop_last(), c);
        assert(bs.drop_last()[first_combo_index(bs, c)->0] == bs[first_combo_index(bs, c)->0]);
    }
}


// ---------------------------------------------------------------------------
// Laws of the planner
// ---------------------------------------------------------------------------

/// With distinct combos, the committed overlays are the profile's bindings
/// that differ from their baseline.
pub proof fn lemma_committed_overlays(bs: Seq<Binding>, b: Map<ComboView, BaselineView>, c: ComboView)
    requires
        distinct_keys(bs),
    ensures
        committed_overlays(bs, b).contains_key(c) <==> (keyed_map(bs).contains_key(c)
            && !identical_to_base(b, keyed_map(bs)[c])),
        committed_overlays(bs, b).contains_key(c) ==> committed_overlays(bs, b)[c] == keyed_map(
            bs,
        )[c],
    decreases bs.len(),
{
    if bs.len() > 0 {
        let t = bs.drop_last();
        assert forall|i: int, j: int|
            0 <= i < t.len() && 0 <= j < t.len() && i != j implies <Binding as Keyed>::key_view(
            t[i]@,
        ) != <Binding as Keyed>::key_view(t[j]@) by {
            assert(t[i] == bs[i] && t[j] == bs[j]);
        }
        lemma_committed_overlays(t, b, c);
        let k = bs.last()@.key_combo;
        if c == k {
            lemma_keyed_dom(t, k);
            if keyed_map(t).contains_key(k) {
                let j = choose|j: int| 0 <= j < t.len() && <Binding as Keyed>::key_view(#[trigger] t[j]@) == k;
                assert(t[j] == bs[j]);
            }
        }
    }
}

/// Switching again to the profile just committed plans nothing: when the
/// profile binds each combo at most once, no combo is unbound or bound,
/// whatever the policy.
pub proof fn law_switch_to_committed_profile_is_empty(
    bs: Seq<Binding>,
    b: Map<ComboView, BaselineView>,
    policy: ConflictPolicy,
    c: ComboView,
)
    requires
        distinct_keys(bs),
    ensures
        !plan_unbinds(committed_overlays(bs, b), keyed_map(bs), b, policy, c),
        !plan_binds(committed_overlays(bs, b), keyed_map(bs), b, policy, c),
{
    lemma_committed_overlays(bs, b, c);
    if keyed_map(bs).contains_key(c) {
        crate::keyed::lemma_keyed_key(bs, c);
    }
}

/// From a clean state (no overlays, no baseline) a switch binds exactly the
/// target's bindings and unbinds nothing.
pub proof fn law_switch_from_clean_state_binds_all(
    t: Map<ComboView, BindingView>,
    policy: ConflictPolicy,
    c: ComboView,
)
    ensures
        plan_binds(Map::empty(), t, Map::empty(), policy, c) == t.contains_key(c),
        !plan_unbinds(Map::empty(), t, Map::empty(), policy, c),
{
}

/// A switch never unbinds a combo it neither owns nor binds.
pub proof fn law_unbind_only_owned_or_rebound(
    o: Map<ComboView, BindingView>,
    t: Map<ComboView, BindingView>,
    b: Map<ComboView, BaselineView>,
    policy: ConflictPolicy,
    c: ComboView,
)
    requires
        plan_unbinds(o, t, b, policy, c),
    ensures
        o.contains_key(c) || plan_binds(o, t, b, policy, c),
{
}

} // verus!
