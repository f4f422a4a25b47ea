//! Usage statistics and the recommendations drawn from them.
use vstd::prelude::*;

use crate::binding::{dispatcher_of, opt_view, Binding};
use crate::keyed::{insert_sorted, lemma_insert_at, sorted_by_key, SortKey};
use crate::named::{count_of, lemma_named_val, named_map, names_distinct, NamedCounts};
use crate::profile::Profile;
pub use crate::protocol::{Recommendation, UsageStats};
use crate::text::{chars_of, concat, concat3, decimal, has_prefix, owned, push_decimal, push_str, starts_with, str_eq};

verus! {

/// The abstract value of a recommendation.
pub struct RecView {
    pub id: Seq<char>,
    pub title: Seq<char>,
    pub message: Seq<char>,
    pub suggestion_type: Seq<char>,
    pub suggested_action: Option<Seq<char>>,
}

impl View for Recommendation {
    type V = RecView;

    open spec fn view(&self) -> RecView {
        RecView {
            id: self.id@,
            title: self.title@,
            message: self.message@,
            suggestion_type: self.suggestion_type@,
            suggested_action: opt_view(self.suggested_action),
        }
    }
}

impl SortKey for Recommendation {
    open spec fn sort_key(v: RecView) -> Seq<char> {
        v.id
    }

    fn key_text(&self) -> (r: Vec<char>) {
        chars_of(self.id.as_str())
    }
}

impl Recommendation {
    pub fn new(
        id: &str,
        title: &str,
        message: &str,
        suggestion_type: &str,
        suggested_action: Option<String>,
    ) -> (r: Recommendation)
        ensures
            r@ == (RecView {
                id: id@,
                title: title@,
                message: message@,
                suggestion_type: suggestion_type@,
                suggested_action: opt_view(suggested_action),
            }),
    {
        Recommendation {
            id: owned(id),
            title: owned(title),
            message: owned(message),
            suggestion_type: owned(suggestion_type),
            suggested_action,
        }
    }
}

/// Whether a binding with dispatcher `d` serves the action named `name`:
/// same dispatcher name, a `snap*` action on `movefocus`, `close_window`
/// on `killactive`, or `maximize` on `fullscreen 1`.
pub open spec fn covers(name: Seq<char>, d: (Seq<char>, Seq<char>)) -> bool {
    ||| name == d.0
    ||| (has_prefix(name, "snap"@) && d.0 == "movefocus"@)
    ||| (name == "close_window"@ && d.0 == "killactive"@)
    ||| (name == "maximize"@ && d.0 == "fullscreen"@ && d.1 == "1"@)
}

/// Whether some binding serves the action named `name`.
pub open spec fn is_bound(name: Seq<char>, bs: Seq<Binding>) -> bool {
    exists|i: int| 0 <= i < bs.len() && covers(name, dispatcher_of(#[trigger] bs[i].action@))
}

pub open spec fn action_rec(name: Seq<char>, count: u64, profile: Seq<char>) -> RecView {
    RecView {
        id: "rec_action_"@ + name,
        title: "Frequent Action Unbound: "@ + name,
        message: "Action '"@ + name + "' has been invoked "@ + decimal(count as nat)
            + " times, but has no key binding in current profile '"@ + profile
            + "'. Consider assigning a shortcut."@,
        suggestion_type: "missing_binding"@,
        suggested_action: Some(name),
    }
}

pub open spec fn conflict_rec(combo: Seq<char>, hits: u64) -> RecView {
    RecView {
        id: "rec_conflict_"@ + combo,
        title: "High Conflict Rate: "@ + combo,
        message: "Key combo '"@ + combo + "' has encountered conflicts "@ + decimal(hits as nat)
            + " times. Consider remapping this shortcut to prevent collision."@,
        suggestion_type: "conflict_resolution"@,
        suggested_action: Some(combo),
    }
}

pub open spec fn unused_rec(p: Seq<char>) -> RecView {
    RecView {
        id: "rec_unused_profile_"@ + p,
        title: "Unused Profile: "@ + p,
        message: "Profile '"@ + p
            + "' has not been actively used. You might consider removing or consolidating it."@,
        suggestion_type: "profile_cleanup"@,
        suggested_action: Some(p),
    }
}

/// A frequent action (invoked at least 3 times) that no binding serves.
pub open spec fn wants_action_rec(
    actions: Map<Seq<char>, u64>,
    profile: Profile,
    name: Seq<char>,
) -> bool {
    actions.contains_key(name) && actions[name] >= 3 && !is_bound(name, profile.bindings@)
}

/// A combo that hit conflicts at least twice.
pub open spec fn wants_conflict_rec(conflicts: Map<Seq<char>, u64>, combo: Seq<char>) -> bool {
    conflicts.contains_key(combo) && conflicts[combo] >= 2
}

/// Another profile never in use, once there were at least 5 switches.
pub open spec fn wants_unused_rec(
    usage: Map<Seq<char>, u64>,
    switches: u64,
    profile: Profile,
    p: Seq<char>,
) -> bool {
    usage.contains_key(p) && p != profile.name@ && usage[p] == 0 && switches >= 5
}

/// The recommendations owed for the given statistics and current profile.
pub open spec fn owed(
    actions: Map<Seq<char>, u64>,
    conflicts: Map<Seq<char>, u64>,
    usage: Map<Seq<char>, u64>,
    switches: u64,
    profile: Profile,
    v: RecView,
) -> bool {
    ||| exists|n: Seq<char>|
        wants_action_rec(actions, profile, n) && v == #[trigger] action_rec(n, actions[n], profile.name@)
    ||| exists|c: Seq<char>| wants_conflict_rec(conflicts, c) && v == #[trigger] conflict_rec(c, conflicts[c])
    ||| exists|p: Seq<char>| wants_unused_rec(usage, switches, profile, p) && v == #[trigger] unused_rec(p)
}

/// Distinct ids.
pub open spec fn ids_distinct(s: Seq<Recommendation>) -> bool {
    forall|i: int, j: int| 0 <= i < s.len() && 0 <= j < s.len() && i != j ==> s[i].id@ != s[j].id@
}

/// Tracks profile usage time, action frequencies and conflict hits.
#[derive(Debug, Clone)]
pub struct StatsEngine {
    profile_usage: NamedCounts,
    action_counts: NamedCounts,
    conflict_hits: NamedCounts,
    total_switches: u64,
    total_actions: u64,
    active_profile: Option<String>,
}

impl StatsEngine {
    pub closed spec fn wf(&self) -> bool {
        self.profile_usage.wf() && self.action_counts.wf() && self.conflict_hits.wf()
    }

    /// Seconds spent in each profile (up to its last switch away).
    pub closed spec fn usage(&self) -> Map<Seq<char>, u64> {
        self.profile_usage@
    }

    pub closed spec fn actions(&self) -> Map<Seq<char>, u64> {
        self.action_counts@
    }

    pub closed spec fn conflicts(&self) -> Map<Seq<char>, u64> {
        self.conflict_hits@
    }

    pub closed spec fn switches(&self) -> u64 {
        self.total_switches
    }

    pub closed spec fn actions_total(&self) -> u64 {
        self.total_actions
    }

    pub closed spec fn active(&self) -> Option<Seq<char>> {
        opt_view(self.active_profile)
    }

    pub fn new() -> (r: StatsEngine)
        ensures
            r.wf(),
            r.usage() == Map::<Seq<char>, u64>::empty(),
            r.actions() == Map::<Seq<char>, u64>::empty(),
            r.conflicts() == Map::<Seq<char>, u64>::empty(),
            r.switches() == 0,
            r.actions_total() == 0,
            r.active() is None,
    {
        StatsEngine {
            profile_usage: NamedCounts::new(),
            action_counts: NamedCounts::new(),
            conflict_hits: NamedCounts::new(),
            total_switches: 0,
            total_actions: 0,
            active_profile: None,
        }
    }

    /// Seconds recorded so far for the active profile (0 when none is
    /// active).
    pub fn active_usage(&self) -> (r: u64)
        requires
            self.wf(),
        ensures
            r == match self.active() {
                Some(a) => count_of(self.usage(), a),
                None => 0,
            },
    {
        match &self.active_profile {
            Some(a) => self.profile_usage.get(a.as_str()),
            None => 0,
        }
    }

    /// How many times the action `name` was recorded.
    pub fn action_count(&self, name: &str) -> (r: u64)
        requires
            self.wf(),
        ensures
            r == count_of(self.actions(), name@),
    {
        self.action_counts.get(name)
    }

    pub fn total_switches(&self) -> (r: u64)
        ensures
            r == self.switches(),
    {
        self.total_switches
    }

    pub fn total_actions(&self) -> (r: u64)
        ensures
            r == self.actions_total(),
    {
        self.total_actions
    }

    /// Records a switch to `new_profile`, `elapsed_secs` after the previous
    /// switch: the previously active profile is credited with that time.
    pub fn record_switch(&mut self, new_profile: &str, elapsed_secs: u64)
        requires
            old(self).wf(),
            old(self).switches() < u64::MAX,
            old(self).active() matches Some(prev) ==> count_of(old(self).usage(), prev) + elapsed_secs
                <= u64::MAX,
        ensures
            final(self).wf(),
            final(self).usage() == match old(self).active() {
                Some(prev) => old(self).usage().insert(
                    prev,
                    (count_of(old(self).usage(), prev) + elapsed_secs) as u64,
                ),
                None => old(self).usage(),
            },
            final(self).active() == Some(new_profile@),
            final(self).switches() == old(self).switches() + 1,
            final(self).actions() == old(self).actions(),
            final(self).conflicts() == old(self).conflicts(),
            final(self).actions_total() == old(self).actions_total(),
    {
        match &self.active_profile {
            Some(prev) => {
                self.profile_usage.add(prev.as_str(), elapsed_secs);
            },
            None => {},
        }
        self.active_profile = Some(owned(new_profile));
        self.total_switches = self.total_switches + 1;
    }

    /// Records one use of the action named `action_name`.
    pub fn record_action(&mut self, action_name: &str)
        requires
            old(self).wf(),
            count_of(old(self).actions(), action_name@) < u64::MAX,
            old(self).actions_total() < u64::MAX,
        ensures
            final(self).wf(),
            final(self).actions() == old(self).actions().insert(
                action_name@,
                (count_of(old(self).actions(), action_name@) + 1) as u64,
            ),
            final(self).actions_total() == old(self).actions_total() + 1,
            final(self).usage() == old(self).usage(),
            final(self).conflicts() == old(self).conflicts(),
            final(self).switches() == old(self).switches(),
            final(self).active() == old(self).active(),
    {
        self.action_counts.add(action_name, 1);
        self.total_actions = self.total_actions + 1;
    }

    /// Records one conflict on `combo`.
    pub fn record_conflict(&mut self, combo: &str)
        requires
            old(self).wf(),
            count_of(old(self).conflicts(), combo@) < u64::MAX,
        ensures
            final(self).wf(),
            final(self).conflicts() == old(self).conflicts().insert(
                combo@,
                (count_of(old(self).conflicts(), combo@) + 1) as u64,
            ),
            final(self).usage() == old(self).usage(),
            final(self).actions() == old(self).actions(),
            final(self).switches() == old(self).switches(),
            final(self).actions_total() == old(self).actions_total(),
            final(self).active() == old(self).active(),
    {
        self.conflict_hits.add(combo, 1);
    }

    /// A snapshot of the statistics, the active profile being credited with
    /// `current_secs` (the time since its switch), after `uptime_secs` of
    /// running.
    pub fn get_stats(&self, current_secs: u64, uptime_secs: u64) -> (r: UsageStats)
        requires
            self.wf(),
            self.active() matches Some(a) ==> count_of(self.usage(), a) + current_secs <= u64::MAX,
        ensures
            names_distinct(r.profile_usage@),
            named_map(r.profile_usage@) == match self.active() {
                Some(a) => self.usage().insert(a, (count_of(self.usage(), a) + current_secs) as u64),
                None => self.usage(),
            },
            names_distinct(r.action_counts@),
            named_map(r.action_counts@) == self.actions(),
            names_distinct(r.conflict_hits@),
            named_map(r.conflict_hits@) == self.conflicts(),
            r.total_switches == self.switches(),
            r.total_actions == self.actions_total(),
            r.uptime_secs == uptime_secs,
    {
        let mut usage = NamedCounts::new();
        let items = self.profile_usage.entries();
        let mut i: usize = 0;
        while i < items.len()
            invariant
                i <= items@.len(),
                names_distinct(items@),
                usage.wf(),
                usage@ == named_map(items@.take(i as int)),
            decreases items@.len() - i,
        {
            let ghost before = usage@;
            proof {
                let t = items@.take(i as int);
                assert forall|j: int| 0 <= j < t.len() implies #[trigger] t[j].0@ != items@[i as int].0@ by {
                    assert(t[j] == items@[j]);
                }
                assert(!named_map(t).contains_key(items@[i as int].0@));
            }
            usage.add(items[i].0.as_str(), items[i].1);
            proof {
                let t = items@.take(i as int);
                let t2 = items@.take((i + 1) as int);
                assert(names_distinct(t2)) by {
                    assert forall|a: int, b: int| 0 <= a < t2.len() && 0 <= b < t2.len() && a != b implies t2[a].0@
                        != t2[b].0@ by {
                        assert(t2[a] == items@[a] && t2[b] == items@[b]);
                    }
                }
                assert forall|k: Seq<char>| usage@.contains_key(k) <==> exists|j: int|
                    0 <= j < t2.len() && #[trigger] t2[j].0@ == k by {
                    if before.contains_key(k) {
                        let j = choose|j: int| 0 <= j < t.len() && #[trigger] t[j].0@ == k;
                        assert(t2[j] == t[j]);
                    }
                    if exists|j: int| 0 <= j < t2.len() && #[trigger] t2[j].0@ == k {
                        let j = choose|j: int| 0 <= j < t2.len() && #[trigger] t2[j].0@ == k;
                        if j < i {
                            assert(t[j] == t2[j]);
                        }
                    }
                    if k == items@[i as int].0@ {
                        assert(t2[i as int].0@ == k);
                    }
                }
                assert forall|j: int| 0 <= j < t2.len() implies usage@[#[trigger] t2[j].0@] == t2[j].1 by {
                    if j < i {
                        assert(t[j] == t2[j]);
                        lemma_named_val(t, j);
                        assert(t2[j].0@ != items@[i as int].0@);
                    }
                }
                crate::named::lemma_named_ext(t2, usage@);
            }
            i = i + 1;
        }
        assert(items@.take(items@.len() as int) =~= items@);
        match &self.active_profile {
            Some(a) => {
                usage.add(a.as_str(), current_secs);
            },
            None => {},
        }
        UsageStats {
            profile_usage: usage.to_vec(),
            action_counts: self.action_counts.to_vec(),
            conflict_hits: self.conflict_hits.to_vec(),
            total_switches: self.total_switches,
            total_actions: self.total_actions,
            uptime_secs,
        }
    }
}


/// Some recommendation of `s` equals `v`.
pub open spec fn has_rec(s: Seq<Recommendation>, v: RecView) -> bool {
    exists|m: int| 0 <= m < s.len() && #[trigger] s[m]@ == v
}

proof fn lemma_insert_has(s: Seq<Recommendation>, p: int, x: Recommendation)
    requires
        0 <= p <= s.len(),
    ensures
        forall|v: RecView| #[trigger] has_rec(s.insert(p, x), v) == (has_rec(s, v) || v == x@),
{
    lemma_insert_at(s, p, x);
    let t = s.insert(p, x);
    assert forall|v: RecView| #[trigger] has_rec(t, v) == (has_rec(s, v) || v == x@) by {
        if has_rec(s, v) {
            let m = choose|m: int| 0 <= m < s.len() && #[trigger] s[m]@ == v;
            let m1 = if m < p { m } else { m + 1 };
            assert(t[m1] == s[m]);
        }
        if has_rec(t, v) {
            let m = choose|m: int| 0 <= m < t.len() && #[trigger] t[m]@ == v;
            if m < p {
                assert(t[m] == s[m]);
            } else if m > p {
                assert(t[m] == s[m - 1]);
            }
        }
        if v == x@ {
            assert(t[p]@ == v);
        }
    }
}

proof fn lemma_insert_all(s: Seq<Recommendation>, p: int, x: Recommendation, pred: spec_fn(RecView) -> bool)
    requires
        0 <= p <= s.len(),
        forall|m: int| 0 <= m < s.len() ==> pred(#[trigger] s[m]@),
        pred(x@),
    ensures
        forall|m: int| 0 <= m < s.len() + 1 ==> pred(#[trigger] s.insert(p, x)[m]@),
{
    lemma_insert_at(s, p, x);
    assert forall|m: int| 0 <= m < s.len() + 1 implies pred(#[trigger] s.insert(p, x)[m]@) by {
        if m < p {
            assert(s.insert(p, x)[m] == s[m]);
        } else if m > p {
            assert(s.insert(p, x)[m] == s[m - 1]);
        }
    }
}

proof fn lemma_prefix_inj(p: Seq<char>, a: Seq<char>, b: Seq<char>)
    requires
        p + a == p + b,
    ensures
        a == b,
{
    assert((p + a).skip(p.len() as int) =~= a);
    assert((p + b).skip(p.len() as int) =~= b);
}

/// Adds `x`, whose id is new, at its place in id order.
fn add_rec(recs: &mut Vec<Recommendation>, x: Recommendation) -> (p: usize)
    requires
        sorted_by_key(old(recs)@),
        ids_distinct(old(recs)@),
        forall|m: int| 0 <= m < old(recs)@.len() ==> (#[trigger] old(recs)@[m]).id@ != x.id@,
    ensures
        sorted_by_key(final(recs)@),
        ids_distinct(final(recs)@),
        p <= old(recs)@.len(),
        final(recs)@ == old(recs)@.insert(p as int, x),
{
    let ghost s0 = recs@;
    let ghost xv = x;
    let p = insert_sorted(recs, x);
    proof {
        lemma_insert_at(s0, p as int, xv);
        let s = recs@;
        assert forall|i: int, j: int| 0 <= i < s.len() && 0 <= j < s.len() && i != j implies s[i].id@
            != s[j].id@ by {
            let i0 = if i < p { i } else { i - 1 };
            let j0 = if j < p { j } else { j - 1 };
            if i != p {
                assert(s[i] == s0[i0]);
            }
            if j != p {
                assert(s[j] == s0[j0]);
            }
        }
    }
    p
}

/// Whether the binding list serves the action named `name`.
fn bound_in(name: &str, bs: &Vec<Binding>) -> (r: bool)
    ensures
        r == is_bound(name@, bs@),
{
    proof {
        reveal_strlit("snap");
    }
    let mut i: usize = 0;
    while i < bs.len()
        invariant
            i <= bs@.len(),
            forall|j: int| 0 <= j < i ==> !covers(name@, dispatcher_of(#[trigger] bs@[j].action@)),
        decreases bs@.len() - i,
    {
        let (d, a) = bs[i].action.to_hyprland_dispatcher();
        if str_eq(name, d.as_str()) || (starts_with(name, "snap") && str_eq(d.as_str(), "movefocus"))
            || (str_eq(name, "close_window") && str_eq(d.as_str(), "killactive")) || (str_eq(
            name,
            "maximize",
        ) && str_eq(d.as_str(), "fullscreen") && str_eq(a.as_str(), "1")) {
            return true;
        }
        i = i + 1;
    }
    false
}

fn make_action_rec(name: &str, count: u64, profile: &str) -> (r: Recommendation)
    ensures
        r@ == action_rec(name@, count, profile@),
{
    let mut message = concat3("Action '", name, "' has been invoked ");
    push_decimal(&mut message, count as u128);
    push_str(&mut message, " times, but has no key binding in current profile '");
    push_str(&mut message, profile);
    push_str(&mut message, "'. Consider assigning a shortcut.");
    Recommendation {
        id: concat("rec_action_", name),
        title: concat("Frequent Action Unbound: ", name),
        message,
        suggestion_type: owned("missing_binding"),
        suggested_action: Some(owned(name)),
    }
}

fn make_conflict_rec(combo: &str, hits: u64) -> (r: Recommendation)
    ensures
        r@ == conflict_rec(combo@, hits),
{
    let mut message = concat3("Key combo '", combo, "' has encountered conflicts ");
    push_decimal(&mut message, hits as u128);
    push_str(&mut message, " times. Consider remapping this shortcut to prevent collision.");
    Recommendation {
        id: concat("rec_conflict_", combo),
        title: concat("High Conflict Rate: ", combo),
        message,
        suggestion_type: owned("conflict_resolution"),
        suggested_action: Some(owned(combo)),
    }
}

fn make_unused_rec(p: &str) -> (r: Recommendation)
    ensures
        r@ == unused_rec(p@),
{
    Recommendation {
        id: concat("rec_unused_profile_", p),
        title: concat("Unused Profile: ", p),
        message: concat3(
            "Profile '",
            p,
            "' has not been actively used. You might consider removing or consolidating it.",
        ),
        suggestion_type: owned("profile_cleanup"),
        suggested_action: Some(owned(p)),
    }
}

/// A recommendation drawn from one of the first `upto` action entries.
pub open spec fn from_actions(items: Seq<(String, u64)>, upto: int, profile: Profile, v: RecView) -> bool {
    exists|j: int|
        0 <= j < upto && items[j].1 >= 3 && !is_bound(items[j].0@, profile.bindings@) && v
            == #[trigger] action_rec(items[j].0@, items[j].1, profile.name@)
}

pub open spec fn from_conflicts(items: Seq<(String, u64)>, upto: int, v: RecView) -> bool {
    exists|j: int| 0 <= j < upto && items[j].1 >= 2 && v == #[trigger] conflict_rec(items[j].0@, items[j].1)
}

pub open spec fn from_usage(items: Seq<(String, u64)>, upto: int, switches: u64, profile: Profile, v: RecView) -> bool {
    exists|j: int|
        0 <= j < upto && items[j].0@ != profile.name@ && items[j].1 == 0 && switches >= 5 && v
            == #[trigger] unused_rec(items[j].0@)
}

impl StatsEngine {
    /// Recommendations, by increasing id: a `missing_binding` one for each
    /// action used at least 3 times that no binding of `current_profile`
    /// serves, a `conflict_resolution` one for each combo with at least 2
    /// conflicts, and, after at least 5 switches, a `profile_cleanup` one for
    /// each other profile with no recorded use.
    pub fn generate_recommendations(&self, current_profile: &Profile) -> (r: Vec<Recommendation>)
        requires
            self.wf(),
        ensures
            sorted_by_key(r@),
            ids_distinct(r@),
            forall|i: int|
                0 <= i < r@.len() ==> owed(
                    self.actions(),
                    self.conflicts(),
                    self.usage(),
                    self.switches(),
                    *current_profile,
                    #[trigger] r@[i]@,
                ),
            forall|v: RecView|
                owed(
                    self.actions(),
                    self.conflicts(),
                    self.usage(),
                    self.switches(),
                    *current_profile,
                    v,
                ) ==> #[trigger] has_rec(r@, v),
    {
        proof {
            reveal_strlit("rec_action_");
            reveal_strlit("rec_conflict_");
            reveal_strlit("rec_unused_profile_");
        }
        let prof = current_profile;
        let ghost pv = *current_profile;
        let mut recs: Vec<Recommendation> = Vec::new();
        let acts = self.action_counts.entries();
        let mut i: usize = 0;
        while i < acts.len()
            invariant
                i <= acts@.len(),
                names_distinct(acts@),
                pv == *prof,
                sorted_by_key(recs@),
                ids_distinct(recs@),
                forall|m: int| 0 <= m < recs@.len() ==> from_actions(acts@, i as int, pv, #[trigger] recs@[m]@),
                forall|j: int|
                    0 <= j < i && acts@[j].1 >= 3 && !is_bound(acts@[j].0@, pv.bindings@) ==> has_rec(
                        recs@,
                        #[trigger] action_rec(acts@[j].0@, acts@[j].1, pv.name@),
                    ),
            decreases acts@.len() - i,
        {
            let name = acts[i].0.as_str();
            let count = acts[i].1;
            if count >= 3 && !bound_in(name, &prof.bindings) {
                let x = make_action_rec(name, count, prof.name.as_str());
                proof {
                    assert forall|m: int| 0 <= m < recs@.len() implies (#[trigger] recs@[m]).id@ != x.id@ by {
                        let j = choose|j: int|
                            0 <= j < i && acts@[j].1 >= 3 && !is_bound(acts@[j].0@, pv.bindings@) && recs@[m]@
                                == #[trigger] action_rec(acts@[j].0@, acts@[j].1, pv.name@);
                        if recs@[m].id@ == x.id@ {
                            lemma_prefix_inj("rec_action_"@, acts@[j].0@, acts@[i as int].0@);
                        }
                    }
                }
                let ghost s0 = recs@;
                let ghost xr = x;
                let p = add_rec(&mut recs, x);
                proof {
                    lemma_insert_has(s0, p as int, xr);
                    lemma_insert_all(s0, p as int, xr, |v: RecView| from_actions(acts@, i + 1, pv, v));
                    assert(xr@ == action_rec(acts@[i as int].0@, acts@[i as int].1, pv.name@));
                }
            }
            proof {
                assert forall|m: int| 0 <= m < recs@.len() implies from_actions(acts@, i + 1, pv, #[trigger] recs@[m]@) by {
                }
            }
            i = i + 1;
        }
        let confs = self.conflict_hits.entries();
        let mut k: usize = 0;
        while k < confs.len()
            invariant
                k <= confs@.len(),
                names_distinct(confs@),
                pv == *prof,
                sorted_by_key(recs@),
                ids_distinct(recs@),
                forall|m: int|
                    0 <= m < recs@.len() ==> from_actions(acts@, acts@.len() as int, pv, #[trigger] recs@[m]@)
                        || from_conflicts(confs@, k as int, recs@[m]@),
                forall|j: int|
                    0 <= j < acts@.len() && acts@[j].1 >= 3 && !is_bound(acts@[j].0@, pv.bindings@)
                        ==> has_rec(recs@, #[trigger] action_rec(acts@[j].0@, acts@[j].1, pv.name@)),
                forall|j: int|
                    0 <= j < k && confs@[j].1 >= 2 ==> has_rec(
                        recs@,
                        #[trigger] conflict_rec(confs@[j].0@, confs@[j].1),
                    ),
            decreases confs@.len() - k,
        {
            let combo = confs[k].0.as_str();
            let hits = confs[k].1;
            if hits >= 2 {
                let x = make_conflict_rec(combo, hits);
                proof {
                    assert forall|m: int| 0 <= m < recs@.len() implies (#[trigger] recs@[m]).id@ != x.id@ by {
                        if from_conflicts(confs@, k as int, recs@[m]@) {
                            let j = choose|j: int|
                                0 <= j < k && confs@[j].1 >= 2 && recs@[m]@ == #[trigger] conflict_rec(
                                    confs@[j].0@,
                                    confs@[j].1,
                                );
                            if recs@[m].id@ == x.id@ {
                                lemma_prefix_inj("rec_conflict_"@, confs@[j].0@, confs@[k as int].0@);
                            }
                        } else {
                            let j = choose|j: int|
                                0 <= j < acts@.len() && acts@[j].1 >= 3 && !is_bound(acts@[j].0@, pv.bindings@)
                                    && recs@[m]@ == #[trigger] action_rec(acts@[j].0@, acts@[j].1, pv.name@);
                            reveal_strlit("rec_action_");
                            reveal_strlit("rec_conflict_");
                            assert(recs@[m].id@ == "rec_action_"@ + acts@[j].0@);
                            assert(recs@[m].id@[4] == 'a');
                            assert(x.id@[4] == 'c');
                        }
                    }
                }
                let ghost s0 = recs@;
                let ghost xr = x;
                let p = add_rec(&mut recs, x);
                proof {
                    lemma_insert_has(s0, p as int, xr);
                    lemma_insert_all(
                        s0,
                        p as int,
                        xr,
                        |v: RecView|
                            from_actions(acts@, acts@.len() as int, pv, v) || from_conflicts(confs@, k + 1, v),
                    );
                    assert(xr@ == conflict_rec(confs@[k as int].0@, confs@[k as int].1));
                }
            }
            proof {
                assert forall|m: int| 0 <= m < recs@.len() implies from_actions(acts@, acts@.len() as int, pv, #[trigger] recs@[m]@)
                    || from_conflicts(confs@, k + 1, recs@[m]@) by {
                    if from_conflicts(confs@, k as int, recs@[m]@) {
                        let j = choose|j: int|
                            0 <= j < k && confs@[j].1 >= 2 && recs@[m]@ == #[trigger] conflict_rec(
                                confs@[j].0@,
                                confs@[j].1,
                            );
                        assert(from_conflicts(confs@, k + 1, recs@[m]@));
                    }
                }
            }
            k = k + 1;
        }
        let uses = self.profile_usage.entries();
        let switches = self.total_switches;
        let mut u: usize = 0;
        while u < uses.len()
            invariant
                u <= uses@.len(),
                names_distinct(uses@),
                pv == *prof,
                switches == self.switches(),
                sorted_by_key(recs@),
                ids_distinct(recs@),
                forall|m: int|
                    0 <= m < recs@.len() ==> from_actions(acts@, acts@.len() as int, pv, #[trigger] recs@[m]@)
                        || from_conflicts(confs@, confs@.len() as int, recs@[m]@) || from_usage(
                        uses@,
                        u as int,
                        switches,
                        pv,
                        recs@[m]@,
                    ),
                forall|j: int|
                    0 <= j < acts@.len() && acts@[j].1 >= 3 && !is_bound(acts@[j].0@, pv.bindings@)
                        ==> has_rec(recs@, #[trigger] action_rec(acts@[j].0@, acts@[j].1, pv.name@)),
                forall|j: int|
                    0 <= j < confs@.len() && confs@[j].1 >= 2 ==> has_rec(
                        recs@,
                        #[trigger] conflict_rec(confs@[j].0@, confs@[j].1),
                    ),
                forall|j: int|
                    0 <= j < u && uses@[j].0@ != pv.name@ && uses@[j].1 == 0 && switches >= 5
                        ==> has_rec(recs@, #[trigger] unused_rec(uses@[j].0@)),
            decreases uses@.len() - u,
        {
            let pname = uses[u].0.as_str();
            let dur = uses[u].1;
            if !str_eq(pname, prof.name.as_str()) && dur == 0 && switches >= 5 {
                let x = make_unused_rec(pname);
                proof {
                    assert forall|m: int| 0 <= m < recs@.len() implies (#[trigger] recs@[m]).id@ != x.id@ by {
                        if from_usage(uses@, u as int, switches, pv, recs@[m]@) {
                            let j = choose|j: int|
                                0 <= j < u && uses@[j].0@ != pv.name@ && uses@[j].1 == 0 && switches >= 5
                                    && recs@[m]@ == #[trigger] unused_rec(uses@[j].0@);
                            if recs@[m].id@ == x.id@ {
                                lemma_prefix_inj("rec_unused_profile_"@, uses@[j].0@, uses@[u as int].0@);
                            }
                        } else if from_conflicts(confs@, confs@.len() as int, recs@[m]@) {
                            let j = choose|j: int|
                                0 <= j < confs@.len() && confs@[j].1 >= 2 && recs@[m]@ == #[trigger] conflict_rec(
                                    confs@[j].0@,
                                    confs@[j].1,
                                );
                            reveal_strlit("rec_conflict_");
                            reveal_strlit("rec_unused_profile_");
                            assert(recs@[m].id@ == "rec_conflict_"@ + confs@[j].0@);
                            assert(recs@[m].id@[4] == 'c');
                            assert(x.id@[4] == 'u');
                        } else {
                            let j = choose|j: int|
                                0 <= j < acts@.len() && acts@[j].1 >= 3 && !is_bound(acts@[j].0@, pv.bindings@)
                                    && recs@[m]@ == #[trigger] action_rec(acts@[j].0@, acts@[j].1, pv.name@);
                            reveal_strlit("rec_action_");
                            reveal_strlit("rec_unused_profile_");
                            assert(recs@[m].id@ == "rec_action_"@ + acts@[j].0@);
                            assert(recs@[m].id@[4] == 'a');
                            assert(x.id@[4] == 'u');
                        }
                    }
                }
                let ghost s0 = recs@;
                let ghost xr = x;
                let p = add_rec(&mut recs, x);
                proof {
                    lemma_insert_has(s0, p as int, xr);
                    lemma_insert_all(
                        s0,
                        p as int,
                        xr,
                        |v: RecView|
                            from_actions(acts@, acts@.len() as int, pv, v) || from_conflicts(
                                confs@,
                                confs@.len() as int,
                                v,
                            ) || from_usage(uses@, u + 1, switches, pv, v),
                    );
                    assert(xr@ == unused_rec(uses@[u as int].0@));
                }
            }
            proof {
                assert forall|m: int| 0 <= m < recs@.len() implies from_actions(acts@, acts@.len() as int, pv, #[trigger] recs@[m]@)
                    || from_conflicts(confs@, confs@.len() as int, recs@[m]@) || from_usage(
                    uses@,
                    u + 1,
                    switches,
                    pv,
                    recs@[m]@,
                ) by {
                    if from_usage(uses@, u as int, switches, pv, recs@[m]@) {
                        let j = choose|j: int|
                            0 <= j < u && uses@[j].0@ != pv.name@ && uses@[j].1 == 0 && switches >= 5
                                && recs@[m]@ == #[trigger] unused_rec(uses@[j].0@);
                        assert(from_usage(uses@, u + 1, switches, pv, recs@[m]@));
                    }
                }
            }
            u = u + 1;
        }
        proof {
            let a = self.actions();
            let c = self.conflicts();
            let us = self.usage();
            assert forall|m: int| 0 <= m < recs@.len() implies owed(a, c, us, switches, pv, #[trigger] recs@[m]@) by {
                let v = recs@[m]@;
                if from_actions(acts@, acts@.len() as int, pv, v) {
                    let j = choose|j: int|
                        0 <= j < acts@.len() && acts@[j].1 >= 3 && !is_bound(acts@[j].0@, pv.bindings@) && v
                            == #[trigger] action_rec(acts@[j].0@, acts@[j].1, pv.name@);
                    lemma_named_val(acts@, j);
                    let n = acts@[j].0@;
                    assert(wants_action_rec(a, pv, n) && v == action_rec(n, a[n], pv.name@));
                } else if from_conflicts(confs@, confs@.len() as int, v) {
                    let j = choose|j: int|
                        0 <= j < confs@.len() && confs@[j].1 >= 2 && v == #[trigger] conflict_rec(
                            confs@[j].0@,
                            confs@[j].1,
                        );
                    lemma_named_val(confs@, j);
                    let n = confs@[j].0@;
                    assert(wants_conflict_rec(c, n) && v == conflict_rec(n, c[n]));
                } else {
                    let j = choose|j: int|
                        0 <= j < uses@.len() && uses@[j].0@ != pv.name@ && uses@[j].1 == 0 && switches >= 5
                            && v == #[trigger] unused_rec(uses@[j].0@);
                    lemma_named_val(uses@, j);
                    let n = uses@[j].0@;
                    assert(wants_unused_rec(us, switches, pv, n) && v == unused_rec(n));
                }
            }
            assert forall|v: RecView| owed(a, c, us, switches, pv, v) implies #[trigger] has_rec(recs@, v) by {
                if exists|n: Seq<char>| wants_action_rec(a, pv, n) && v == #[trigger] action_rec(n, a[n], pv.name@) {
                    let n = choose|n: Seq<char>| wants_action_rec(a, pv, n) && v == #[trigger] action_rec(n, a[n], pv.name@);
                    let j = choose|j: int| 0 <= j < acts@.len() && #[trigger] acts@[j].0@ == n;
                    lemma_named_val(acts@, j);
                    assert(has_rec(recs@, action_rec(acts@[j].0@, acts@[j].1, pv.name@)));
                } else if exists|n: Seq<char>| wants_conflict_rec(c, n) && v == #[trigger] conflict_rec(n, c[n]) {
                    let n = choose|n: Seq<char>| wants_conflict_rec(c, n) && v == #[trigger] conflict_rec(n, c[n]);
                    let j = choose|j: int| 0 <= j < confs@.len() && #[trigger] confs@[j].0@ == n;
                    lemma_named_val(confs@, j);
                    assert(has_rec(recs@, conflict_rec(confs@[j].0@, confs@[j].1)));
                } else {
                    let n = choose|n: Seq<char>| wants_unused_rec(us, switches, pv, n) && v == #[trigger] unused_rec(n);
                    let j = choose|j: int| 0 <= j < uses@.len() && #[trigger] uses@[j].0@ == n;
                    lemma_named_val(uses@, j);
                    assert(has_rec(recs@, unused_rec(uses@[j].0@)));
                }
            }
        }
        recs
    }
}

/// A profile that binds a snap action serves every `snap*` action name, one
/// that binds closing serves `close_window`, and one that binds maximizing
/// serves `maximize`: none of them is reported as unbound.
pub proof fn law_bound_actions_are_served(name: Seq<char>, bs: Seq<Binding>, i: int)
    requires
        0 <= i < bs.len(),
    ensures
        has_prefix(name, "snap"@) && (bs[i].action@ is SnapLeft || bs[i].action@ is SnapRight)
            ==> is_bound(name, bs),
        bs[i].action@ is CloseWindow ==> is_bound("close_window"@, bs),
        bs[i].action@ is Maximize ==> is_bound("maximize"@, bs),
        name == dispatcher_of(bs[i].action@).0 ==> is_bound(name, bs),
{
}

} // verus!
