use vstd::prelude::*;
use crate::errors::{spec_exit_code, LaunchError};

verus! {

/// The exit code the guest failure is relayed as when the guest died
/// without a retrievable code (for example on signal termination).
pub open spec fn spec_relayed_code(code: Option<i32>) -> i32 {
    match code {
        Some(c) => c,
        None => 1,
    }
}

/// The name of the guest runtime binary.
pub fn program_name() -> (r: String)
    ensures
        r@ == "cozy-os"@,
{
    "cozy-os".to_owned()
}

/// Decides the outcome of a finished guest process from what the wait
/// reported: `success` is whether the guest terminated successfully and
/// `code` its exit code, where one was retrievable. A successful guest
/// is a successful launch; anything else is a `GuestFailure` carrying
/// the guest's own code, or 1 when no code was available.
pub fn guest_outcome(success: bool, code: Option<i32>) -> (r: Result<(), LaunchError>)
    ensures
        success ==> r is Ok,
        !success ==> r == Result::<(), LaunchError>::Err(
            LaunchError::GuestFailure { code: spec_relayed_code(code) },
        ),
{
    if success {
        Ok(())
    } else {
        match code {
            Some(c) => Err(LaunchError::GuestFailure { code: c }),
            None => Err(LaunchError::GuestFailure { code: 1 }),
        }
    }
}

/// A guest that terminated unsuccessfully with a retrievable code is
/// relayed verbatim: the failure `guest_outcome` builds for it exits
/// with that same code.
pub proof fn lemma_guest_code_relayed(code: i32)
    ensures
        spec_exit_code(LaunchError::GuestFailure { code: spec_relayed_code(Some(code)) }) == code,
{
}

} // verus!
