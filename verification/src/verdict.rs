//! The tri-state outcome of a verification call.

use vstd::prelude::*;

verus! {

/// Outcome of verifying one candidate token.
///
/// Internally the verdict is this enumerated type; it is flattened to an
/// integer only at the host-facing boundary, through [`AuthResult::code`].
#[derive(Clone, Copy, Debug, PartialEq, Eq, Structural)]
pub enum AuthResult {
    /// The token is validly signed, not expired, and carries the expected
    /// audience and issuer.
    Valid,
    /// The token's signature verifies, but its expiration timestamp is in
    /// the past.
    Expired,
    /// The bytes are not a valid token: not UTF-8, malformed, wrongly
    /// signed, or carrying a mismatched audience or issuer.
    Invalid,
}

impl AuthResult {
    /// The integer form carried across the host boundary.
    pub fn code(&self) -> (r: i32)
        ensures
            r as int == self.code_spec(),
    {
        match self {
            AuthResult::Valid => 1,
            AuthResult::Expired => -1,
            AuthResult::Invalid => 0,
        }
    }

    /// What [`AuthResult::code`] returns: `1` for `Valid`, `-1` for
    /// `Expired`, `0` for `Invalid`.
    pub open spec fn code_spec(self) -> int {
        match self {
            AuthResult::Valid => 1,
            AuthResult::Expired => -1,
            AuthResult::Invalid => 0,
        }
    }
}

} // verus!
