//! Judging the answer to the token check.

use crate::envelope::{AuthResponse, AuthResponseView};
use crate::failure::{Failure, FailureView};
use vstd::prelude::*;

verus! {

/// The code of the first message of an answer that accepts the credential.
pub const AUTHORIZED_CODE: i32 = 10000;

/// What the answer to the token check says of the credential: `Ok(true)` where
/// it is refused, `Ok(false)` where it is accepted, and an error where the
/// answer carries no message to go by.
pub open spec fn auth_verdict(status: AuthResponseView) -> Result<bool, FailureView> {
    if status.messages.len() == 0 {
        Err(FailureView::NoMessages)
    } else {
        Ok(status.messages[0].code != AUTHORIZED_CODE)
    }
}

/// Reads the answer to the token check.
///
/// Returns `Ok(true)` where the credential is not authorized, that is where
/// the code of the first message differs from [`AUTHORIZED_CODE`], and
/// `Ok(false)` where it equals it.  Neither the `success` flag nor the error
/// list nor any later message is looked at.  An answer without any message
/// gives [`Failure::NoMessages`].
pub fn check_auth(status: &AuthResponse) -> (res: Result<bool, Failure>)
    ensures
        match res {
            Ok(failed) => auth_verdict(status@) == Ok::<bool, FailureView>(failed),
            Err(failure) => auth_verdict(status@) == Err::<bool, FailureView>(failure@),
        },
{
    if status.messages.len() == 0 {
        Err(Failure::NoMessages)
    } else {
        Ok(status.messages[0].code != AUTHORIZED_CODE)
    }
}

} // verus!
