//! Profiles: named sets of bindings with their policies.
use vstd::prelude::*;

use crate::binding::{canonical, Binding};
use crate::error::CoreError;
use crate::profile_metadata::{ConflictPolicy, WindowPolicyKind};
use crate::text::{chars_of, concat3, owned, str_eq, trim, trim_chars};

verus! {

/// A profile: a cohesive set of key bindings and its metadata.
#[derive(Debug, Clone, PartialEq, Eq)]
pub struct Profile {
    pub name: String,
    pub description: String,
    pub bindings: Vec<Binding>,
    pub priority: Option<u32>,
    pub conflicts_policy: Option<ConflictPolicy>,
    pub window_policy: Option<WindowPolicyKind>,
}

/// Canonical combo texts of a list of bindings, in order.
pub open spec fn canon_seq(bs: Seq<Binding>) -> Seq<Seq<char>> {
    bs.map_values(|b: Binding| canonical(b.key_combo@))
}

/// Index of the first element equal to an earlier one.
pub open spec fn first_dup(cs: Seq<Seq<char>>) -> Option<int>
    decreases cs.len(),
{
    if cs.len() == 0 {
        None
    } else {
        match first_dup(cs.drop_last()) {
            Some(j) => Some(j),
            None => if cs.drop_last().contains(cs.last()) {
                Some(cs.len() - 1)
            } else {
                None
            },
        }
    }
}

/// What `Profile::validate` decides for a profile named `name` whose
/// bindings have the canonical combo texts `cs`.
pub open spec fn validation_result(name: Seq<char>, cs: Seq<Seq<char>>, r: Result<(), CoreError>) -> bool {
    if trim(name).len() == 0 {
        r matches Err(CoreError::Validation { profile, message }) && profile@ == name && message@
            == "Profile name cannot be empty"@
    } else {
        match first_dup(cs) {
            Some(j) => r matches Err(CoreError::Validation { profile, message }) && profile@ == name
                && message@ == "Duplicate key_combo '"@ + cs[j] + "' found in profile bindings"@,
            None => r is Ok,
        }
    }
}

/// Whether a profile passes validation.
pub open spec fn is_valid_profile(p: Profile) -> bool {
    trim(p.name@).len() != 0 && first_dup(canon_seq(p.bindings@)) is None
}

pub proof fn lemma_first_dup_extends(cs: Seq<Seq<char>>, k: int)
    requires
        0 <= k <= cs.len(),
        first_dup(cs.take(k)) is Some,
    ensures
        first_dup(cs) == first_dup(cs.take(k)),
    decreases cs.len(),
{
    if k < cs.len() {
        assert(cs.drop_last().take(k) =~= cs.take(k));
        lemma_first_dup_extends(cs.drop_last(), k);
    } else {
        assert(cs.take(k) =~= cs);
    }
}

impl Profile {
    pub fn new(name: &str, description: &str, bindings: Vec<Binding>) -> (r: Profile)
        ensures
            r.name@ == name@,
            r.description@ == description@,
            r.bindings@ == bindings@,
            r.priority is None,
            r.conflicts_policy is None,
            r.window_policy is None,
    {
        Profile {
            name: owned(name),
            description: owned(description),
            bindings,
            priority: None,
            conflicts_policy: None,
            window_policy: None,
        }
    }

    /// Checks that the name is not blank and that no two bindings share a
    /// key combo (compared by canonical text); reports the first repeated
    /// combo.
    pub fn validate(&self) -> (r: Result<(), CoreError>)
        ensures
            validation_result(self.name@, canon_seq(self.bindings@), r),
    {
        let name_chars = chars_of(self.name.as_str());
        let trimmed = trim_chars(&name_chars);
        if trimmed.len() == 0 {
            return Err(
                CoreError::Validation {
                    profile: self.name.clone(),
                    message: owned("Profile name cannot be empty"),
                },
            );
        }
        let ghost cs = canon_seq(self.bindings@);
        let mut seen: Vec<String> = Vec::new();
        let mut j: usize = 0;
        while j < self.bindings.len()
            invariant
                j <= self.bindings.len(),
                cs == canon_seq(self.bindings@),
                seen@.len() == j,
                forall|i: int| 0 <= i < j ==> #[trigger] seen@[i]@ == cs[i],
                first_dup(cs.take(j as int)) is None,
                trim(self.name@).len() != 0,
            decreases self.bindings.len() - j,
        {
            let c = self.bindings[j].key_combo.canonical_str();
            assert(c@ == cs[j as int]);
            let mut i: usize = 0;
            while i < j
                invariant
                    i <= j,
                    j < self.bindings.len(),
                    seen@.len() == j,
                    forall|k: int| 0 <= k < i ==> seen@[k]@ != c@,
                    cs == canon_seq(self.bindings@),
                    c@ == cs[j as int],
                    forall|k: int| 0 <= k < j ==> #[trigger] seen@[k]@ == cs[k],
                    first_dup(cs.take(j as int)) is None,
                    trim(self.name@).len() != 0,
                decreases j - i,
            {
                if str_eq(seen[i].as_str(), c.as_str()) {
                    proof {
                        let p = cs.take(j + 1);
                        assert(p.drop_last() =~= cs.take(j as int));
                        assert(p.drop_last()[i as int] == p.last());
                        assert(first_dup(p) == Some(j as int));
                        lemma_first_dup_extends(cs, j + 1);
                    }
                    let mut message = concat3("Duplicate key_combo '", c.as_str(), "' found in profile bindings");
                    return Err(CoreError::Validation { profile: self.name.clone(), message });
                }
                i = i + 1;
            }
            proof {
                let p = cs.take(j + 1);
                assert(p.drop_last() =~= cs.take(j as int));
                if p.drop_last().contains(p.last()) {
                    let k = choose|k: int| 0 <= k < p.drop_last().len() && p.drop_last()[k] == p.last();
                    assert(seen@[k]@ == cs[k]);
                }
            }
            seen.push(c);
            j = j + 1;
        }
        assert(cs.take(j as int) =~= cs);
        Ok(())
    }
}

} // verus!
