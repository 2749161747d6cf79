//! Reading what firmware reports when a dispatch it carried out returns.
//!
//! Firmware does its own waiting and answers with one status word. This
//! module turns that word into the outcome the caller would have seen.

use vstd::prelude::*;

use crate::dispatch::{DispatchOutcome, FailureReason};

verus! {

/// The bit that marks a status word as an error: the highest bit of the
/// word.
pub open spec fn error_bit() -> usize {
    (usize::MAX / 2 + 1) as usize
}

/// The status word with which firmware says that a timeout expired: the
/// error bit and the number 18.
pub open spec fn timeout_code() -> usize {
    (error_bit() + 18) as usize
}

/// The outcome that a status word stands for: zero is success, the
/// timeout code is a timeout, and every other word is a failure with that
/// word as its reason.
pub open spec fn outcome_of_status(code: usize) -> DispatchOutcome {
    if code == 0 {
        DispatchOutcome::Completed
    } else if code == timeout_code() {
        DispatchOutcome::TimedOut
    } else {
        DispatchOutcome::Failed(FailureReason { code })
    }
}

/// `uefi::Status::is_success` on the status with this word. It is not
/// proved here that the answer is yes for the word zero and for no other;
/// the method compares the status with `Status::SUCCESS`, whose word is
/// zero.
#[verifier::external_body]
fn status_is_success(code: usize) -> (yes: bool)
    ensures
        yes == (code == 0),
{
    uefi::Status(code).is_success()
}

/// The word of `uefi::Status::TIMEOUT`. It is not proved here that this is
/// [`timeout_code`]; the constant is defined as the error bit, the highest
/// bit of a word, combined with 18.
#[verifier::external_body]
fn timeout_status_code() -> (code: usize)
    ensures
        code == timeout_code(),
{
    uefi::Status::TIMEOUT.0
}

/// The outcome of a dispatch from the status word firmware returned for
/// it.
pub fn outcome_from_status(code: usize) -> (outcome: DispatchOutcome)
    ensures
        outcome == outcome_of_status(code),
{
    if status_is_success(code) {
        DispatchOutcome::Completed
    } else if code == timeout_status_code() {
        DispatchOutcome::TimedOut
    } else {
        DispatchOutcome::Failed(FailureReason { code })
    }
}

} // verus!
