//! Errors raised by the profile engine.
use vstd::prelude::*;

use crate::text::{concat3, owned, push_str};

verus! {

/// Errors of profile parsing, validation and state management.
///
/// I/O and TOML failures belong to the loaders outside this crate; the
/// variants here are the ones the engine itself decides.
#[derive(Debug, Clone, PartialEq, Eq)]
pub enum CoreError {
    Validation { profile: String, message: String },
    ProfileNotFound(String),
    ProtectedProfile(String),
    InvalidKeyCombo { raw: String, reason: String },
    InvalidAction { raw: String, reason: String },
}

/// The user-facing text of an error.
pub open spec fn error_text(e: CoreError) -> Seq<char> {
    match e {
        CoreError::Validation { profile, message } => "Validation error in profile '"@ + profile@
            + "': "@ + message@,
        CoreError::ProfileNotFound(name) => "Profile '"@ + name@ + "' not found"@,
        CoreError::ProtectedProfile(name) => "Cannot delete protected profile '"@ + name@ + "'"@,
        CoreError::InvalidKeyCombo { raw, reason } => "Invalid key combo '"@ + raw@ + "': "@
            + reason@,
        CoreError::InvalidAction { raw, reason } => "Invalid action '"@ + raw@ + "': "@ + reason@,
    }
}

impl CoreError {
    /// The user-facing text of this error.
    pub fn message(&self) -> (r: String)
        ensures
            r@ == error_text(*self),
    {
        match self {
            CoreError::Validation { profile, message } => {
                let mut s = concat3("Validation error in profile '", profile.as_str(), "': ");
                push_str(&mut s, message.as_str());
                s
            },
            CoreError::ProfileNotFound(name) => concat3("Profile '", name.as_str(), "' not found"),
            CoreError::ProtectedProfile(name) => concat3(
                "Cannot delete protected profile '",
                name.as_str(),
                "'",
            ),
            CoreError::InvalidKeyCombo { raw, reason } => {
                let mut s = concat3("Invalid key combo '", raw.as_str(), "': ");
                push_str(&mut s, reason.as_str());
                s
            },
            CoreError::InvalidAction { raw, reason } => {
                let mut s = concat3("Invalid action '", raw.as_str(), "': ");
                push_str(&mut s, reason.as_str());
                s
            },
        }
    }
}

/// A validation error for `profile` with the given message.
pub fn validation_error(profile: &str, message: &str) -> (r: CoreError)
    ensures
        r matches CoreError::Validation { profile: p, message: m } && p@ == profile@ && m@
            == message@,
{
    CoreError::Validation { profile: owned(profile), message: owned(message) }
}

} // verus!
