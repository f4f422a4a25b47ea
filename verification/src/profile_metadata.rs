//! Per-profile policies: conflict arbitration and window behaviour.
use vstd::prelude::*;

verus! {

/// How conflicts with protected baseline bindings are resolved.
#[derive(Debug, Clone, Copy, PartialEq, Eq, Hash, Structural)]
pub enum ConflictPolicy {
    Strict,
    Force,
    Smart,
}

impl Default for ConflictPolicy {
    fn default() -> (r: ConflictPolicy)
        ensures
            r == ConflictPolicy::Strict,
    {
        ConflictPolicy::Strict
    }
}

pub open spec fn conflict_policy_name(p: ConflictPolicy) -> Seq<char> {
    match p {
        ConflictPolicy::Strict => "strict"@,
        ConflictPolicy::Force => "force"@,
        ConflictPolicy::Smart => "smart"@,
    }
}

impl ConflictPolicy {
    pub fn as_str(&self) -> (r: &'static str)
        ensures
            r@ == conflict_policy_name(*self),
    {
        match self {
            ConflictPolicy::Strict => "strict",
            ConflictPolicy::Force => "force",
            ConflictPolicy::Smart => "smart",
        }
    }
}

/// Window policy associated with a profile for `follow-profile`.
#[derive(Debug, Clone, Copy, PartialEq, Eq, Hash, Structural)]
pub enum WindowPolicyKind {
    Omarchy,
    Tiled,
    Floating,
    FollowProfile,
}

impl Default for WindowPolicyKind {
    fn default() -> (r: WindowPolicyKind)
        ensures
            r == WindowPolicyKind::Omarchy,
    {
        WindowPolicyKind::Omarchy
    }
}

pub open spec fn window_policy_kind_name(p: WindowPolicyKind) -> Seq<char> {
    match p {
        WindowPolicyKind::Omarchy => "omarchy"@,
        WindowPolicyKind::Tiled => "tiled"@,
        WindowPolicyKind::Floating => "floating"@,
        WindowPolicyKind::FollowProfile => "follow-profile"@,
    }
}

impl WindowPolicyKind {
    pub fn as_str(&self) -> (r: &'static str)
        ensures
            r@ == window_policy_kind_name(*self),
    {
        match self {
            WindowPolicyKind::Omarchy => "omarchy",
            WindowPolicyKind::Tiled => "tiled",
            WindowPolicyKind::Floating => "floating",
            WindowPolicyKind::FollowProfile => "follow-profile",
        }
    }
}

} // verus!
