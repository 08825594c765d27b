//! The authorization check: a comparison of the header's opening characters
//! with the word `Bearer`.
//!
//! The check is a placeholder, not a verification of any credential. Under
//! both policies a header that opens like a bearer credential is *refused* and
//! every other readable header is let through. That is the behaviour deployed
//! clients rely on, so it is kept and stated here as it is.

use crate::error::WebhookError;
use vstd::prelude::*;
use vstd::string::StrSliceExecFns;

verus! {

/// Which opening characters the check compares, and what it makes of a header
/// too short to hold them.
#[derive(Debug, Clone, Copy, PartialEq, Eq, Structural)]
pub enum AuthPolicy {
    /// Compares the first six characters with `Bearer`. A header of fewer than
    /// six characters is refused like one that matches.
    SchemeWord,
    /// Reads the first eight characters, the shortest a bearer credential can
    /// be, and refuses a header that opens with `Bearer` and a space. A header
    /// of fewer than eight characters cannot be read that far and is an
    /// internal error.
    SchemeAndSpace,
}

impl AuthPolicy {
    /// How many characters of the header the check reads.
    pub open spec fn spec_window(self) -> nat {
        match self {
            AuthPolicy::SchemeWord => 6,
            AuthPolicy::SchemeAndSpace => 8,
        }
    }

    /// The opening characters that get a header refused.
    pub open spec fn spec_prefix(self) -> Seq<char> {
        match self {
            AuthPolicy::SchemeWord => "Bearer"@,
            AuthPolicy::SchemeAndSpace => "Bearer "@,
        }
    }

    /// The error for a header shorter than the window.
    pub open spec fn spec_short_header_error(self) -> WebhookError {
        match self {
            AuthPolicy::SchemeWord => WebhookError::Unauthorized,
            AuthPolicy::SchemeAndSpace => WebhookError::InternalError,
        }
    }

    /// How many characters of the header the check reads.
    pub fn window(self) -> (n: usize)
        ensures
            n == self.spec_window(),
    {
        match self {
            AuthPolicy::SchemeWord => 6,
            AuthPolicy::SchemeAndSpace => 8,
        }
    }

    /// The opening characters that get a header refused.
    pub fn prefix(self) -> (p: &'static str)
        ensures
            p@ == self.spec_prefix(),
    {
        match self {
            AuthPolicy::SchemeWord => "Bearer",
            AuthPolicy::SchemeAndSpace => "Bearer ",
        }
    }

    /// The error for a header shorter than the window.
    #[verifier::when_used_as_spec(spec_short_header_error)]
    pub fn short_header_error(self) -> (e: WebhookError)
        ensures
            e == self.spec_short_header_error(),
    {
        match self {
            AuthPolicy::SchemeWord => WebhookError::Unauthorized,
            AuthPolicy::SchemeAndSpace => WebhookError::InternalError,
        }
    }
}

/// The outcome of the check on a header value, character by character.
pub open spec fn auth_decision(policy: AuthPolicy, auth: Seq<char>) -> Result<(), WebhookError> {
    if auth.len() < policy.spec_window() {
        Err(policy.spec_short_header_error())
    } else if policy.spec_prefix().is_prefix_of(auth) {
        Err(WebhookError::Unauthorized)
    } else {
        Ok(())
    }
}

/// Whether `text` opens with the characters of `prefix`.
pub fn starts_with(text: &str, prefix: &str) -> (yes: bool)
    ensures
        yes == prefix@.is_prefix_of(text@),
{
    let wanted = prefix.unicode_len();
    let given = text.unicode_len();
    if given < wanted {
        return false;
    }
    let mut i: usize = 0;
    while i < wanted
        invariant
            i <= wanted,
            wanted == prefix@.len(),
            given == text@.len(),
            wanted <= given,
            forall|j: int| 0 <= j < i ==> text@[j] == prefix@[j],
        decreases wanted - i,
    {
        if text.get_char(i) != prefix.get_char(i) {
            return false;
        }
        i += 1;
    }
    assert(prefix@ =~= text@.subrange(0, prefix@.len() as int));
    true
}

/// Decides whether a request with this `Authorization` value may proceed.
///
/// The header is refused when it opens with the policy's prefix. A header too
/// short for the policy's window gets the policy's short-header error. Every
/// other header is accepted.
pub fn check_auth(policy: AuthPolicy, auth: &str) -> (decision: Result<(), WebhookError>)
    ensures
        decision == auth_decision(policy, auth@),
{
    if auth.unicode_len() < policy.window() {
        return Err(policy.short_header_error());
    }
    if starts_with(auth, policy.prefix()) {
        Err(WebhookError::Unauthorized)
    } else {
        Ok(())
    }
}

} // verus!
