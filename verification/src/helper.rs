//! What the credential helper says, and what its answer comes to. Running
//! the helper is not done here; reading its lines is.

use crate::session::{Authorized, VerificationError};
use crate::text::has_prefix;
use vstd::prelude::*;

verus! {

/// One line of the helper's output, as far as the agent tells them apart.
#[derive(Clone, Copy, Debug, PartialEq, Eq, Structural)]
pub enum HelperReply {
    /// The helper asks for the secret.
    AsksForSecret,
    /// The helper accepted the credentials.
    Succeeded,
    /// The helper turned the credentials down.
    Failed,
    /// Anything else: a message, or noise.
    Other,
}

/// What a line of the helper's output says. Only the beginning of the line
/// counts.
pub open spec fn reply_of(line: Seq<char>) -> HelperReply {
    if "PAM_PROMPT_ECHO_OFF"@.is_prefix_of(line) || "PAM_PROMPT_ECHO_ON"@.is_prefix_of(line) {
        HelperReply::AsksForSecret
    } else if "SUCCESS"@.is_prefix_of(line) {
        HelperReply::Succeeded
    } else if "FAILURE"@.is_prefix_of(line) {
        HelperReply::Failed
    } else {
        HelperReply::Other
    }
}

/// Tells what a line of the helper's output says.
pub fn classify_reply(line: &str) -> (r: HelperReply)
    ensures
        r == reply_of(line@),
{
    if has_prefix(line, "PAM_PROMPT_ECHO_OFF") || has_prefix(line, "PAM_PROMPT_ECHO_ON") {
        HelperReply::AsksForSecret
    } else if has_prefix(line, "SUCCESS") {
        HelperReply::Succeeded
    } else if has_prefix(line, "FAILURE") {
        HelperReply::Failed
    } else {
        HelperReply::Other
    }
}

/// What the helper's run comes to, given the line that ended it, if one
/// did: success authorizes, failure rejects, and a helper that went away
/// without either was not available.
pub fn verdict(last: Option<HelperReply>) -> (r: Result<Authorized, VerificationError>)
    ensures
        r == match last {
            Some(HelperReply::Succeeded) => Ok::<Authorized, VerificationError>(Authorized),
            Some(HelperReply::Failed) => Err::<Authorized, VerificationError>(
                VerificationError::Rejected,
            ),
            _ => Err::<Authorized, VerificationError>(VerificationError::HelperUnavailable),
        },
{
    match last {
        Some(HelperReply::Succeeded) => Ok(Authorized),
        Some(HelperReply::Failed) => Err(VerificationError::Rejected),
        _ => Err(VerificationError::HelperUnavailable),
    }
}

} // verus!
