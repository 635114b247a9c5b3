//! The decoded payload of a signed token, and the claim checks.

use vstd::prelude::*;

use crate::verdict::AuthResult;

verus! {

/// The audience a token must carry to be accepted.
pub open spec fn expected_audience() -> Seq<char> {
    "my-audience"@
}

/// The issuer a token must carry to be accepted.
pub open spec fn expected_issuer() -> Seq<char> {
    "my-issuer"@
}

/// The structured payload of a token whose signature has already been
/// verified: subject, expiration timestamp (whole seconds since the Unix
/// epoch), audience and issuer. A value of this type exists only for the
/// duration of one verification call.
pub struct Claims {
    pub sub: String,
    pub exp: u64,
    pub aud: String,
    pub iss: String,
}

impl View for Claims {
    type V = (Seq<char>, u64, Seq<char>, Seq<char>);

    open spec fn view(&self) -> Self::V {
        (self.sub@, self.exp, self.aud@, self.iss@)
    }
}

/// The verdict owed to a signed token with payload `c` when judged at time
/// `now`: `Expired` when the expiration timestamp is in the past, whatever
/// the other claims hold; `Invalid` when the audience or the issuer is not
/// the expected one; `Valid` otherwise.
pub open spec fn claims_verdict(c: (Seq<char>, u64, Seq<char>, Seq<char>), now: u64) -> AuthResult {
    if c.1 < now {
        AuthResult::Expired
    } else if c.2 != expected_audience() || c.3 != expected_issuer() {
        AuthResult::Invalid
    } else {
        AuthResult::Valid
    }
}

/// Judge the claims of a token whose signature has verified: expiration
/// first — it takes precedence over every other claim — then audience and
/// issuer.
pub fn check_claims(c: &Claims, now: u64) -> (r: AuthResult)
    ensures
        r == claims_verdict(c@, now),
{
    if c.exp < now {
        return AuthResult::Expired;
    }
    let aud: String = "my-audience".to_owned();
    let iss: String = "my-issuer".to_owned();
    if c.aud == aud && c.iss == iss {
        AuthResult::Valid
    } else {
        AuthResult::Invalid
    }
}

} // verus!
