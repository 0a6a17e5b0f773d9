//! Transport-failure classification and the retry policy shared by the
//! backends: transport errors are retried a bounded number of times with a
//! fixed delay; machine-side rejections are not, the machine meant them.
use crate::machine::error::MachineError;
use vstd::prelude::*;

verus! {

/// A failure worth another attempt. `pairing_is_final` makes a refused
/// pairing final too (the EmberConnect backend).
pub open spec fn spec_retryable(e: MachineError, pairing_is_final: bool) -> bool {
    match e {
        MachineError::Rejected { .. } => false,
        MachineError::FileTooLarge { .. } => false,
        MachineError::InsufficientStorage { .. } => false,
        MachineError::UnsupportedFormat { .. } => false,
        MachineError::PairingRequired { .. } => !pairing_is_final,
        _ => true,
    }
}

/// Executable [`spec_retryable`].
pub fn is_retryable(e: &MachineError, pairing_is_final: bool) -> (r: bool)
    ensures
        r == spec_retryable(*e, pairing_is_final),
{
    match e {
        MachineError::Rejected { .. } => false,
        MachineError::FileTooLarge { .. } => false,
        MachineError::InsufficientStorage { .. } => false,
        MachineError::UnsupportedFormat { .. } => false,
        MachineError::PairingRequired { .. } => !pairing_is_final,
        _ => true,
    }
}

/// What to do after attempt number `failed_attempt` (0-based) of
/// `attempts` failed.
#[derive(Debug, Clone, Copy, PartialEq, Eq, Structural)]
pub enum RetryDecision {
    /// Return this error to the caller now.
    Stop,
    /// Wait the retry delay, then make the next attempt.
    RetryAfterDelay,
}

/// The retry decision.
pub open spec fn spec_after_failure(
    failed_attempt: u32,
    attempts: u32,
    e: MachineError,
    pairing_is_final: bool,
) -> RetryDecision {
    if spec_retryable(e, pairing_is_final) && failed_attempt + 1 < attempts {
        RetryDecision::RetryAfterDelay
    } else {
        RetryDecision::Stop
    }
}

/// Decide whether to retry after a failed attempt.
pub fn after_failure(failed_attempt: u32, attempts: u32, e: &MachineError, pairing_is_final: bool) -> (r:
    RetryDecision)
    ensures
        r == spec_after_failure(failed_attempt, attempts, *e, pairing_is_final),
{
    if is_retryable(e, pairing_is_final) && (failed_attempt as u64) + 1 < attempts as u64 {
        RetryDecision::RetryAfterDelay
    } else {
        RetryDecision::Stop
    }
}

/// Bounded: there is never an attempt number `attempts` or beyond, and a
/// rejection by the machine is never retried.
pub proof fn law_retries_are_bounded(
    failed_attempt: u32,
    attempts: u32,
    e: MachineError,
    pairing_is_final: bool,
)
    ensures
        spec_after_failure(failed_attempt, attempts, e, pairing_is_final)
            == RetryDecision::RetryAfterDelay ==> failed_attempt + 1 < attempts,
        !spec_retryable(e, pairing_is_final) ==> spec_after_failure(
            failed_attempt,
            attempts,
            e,
            pairing_is_final,
        ) == RetryDecision::Stop,
        e is Rejected ==> spec_after_failure(failed_attempt, attempts, e, pairing_is_final)
            == RetryDecision::Stop,
{
}

/// Transport failures are transient: an unreachable machine, a timeout, a
/// garbled answer or an unexpected upload status is tried again while
/// attempts are left, whichever backend asks. What the machine decided (a
/// rejection, a file too large, a full memory, an unsupported format) is
/// final at once; a refused pairing is final exactly when the backend says
/// so.
pub proof fn law_transport_failures_are_retried(
    failed_attempt: u32,
    attempts: u32,
    pairing_is_final: bool,
    message: String,
    status: u16,
    e: MachineError,
)
    ensures
        failed_attempt + 1 < attempts ==> spec_after_failure(
            failed_attempt,
            attempts,
            MachineError::Unreachable(message),
            pairing_is_final,
        ) == RetryDecision::RetryAfterDelay,
        failed_attempt + 1 < attempts ==> spec_after_failure(
            failed_attempt,
            attempts,
            MachineError::Timeout,
            pairing_is_final,
        ) == RetryDecision::RetryAfterDelay,
        failed_attempt + 1 < attempts ==> spec_after_failure(
            failed_attempt,
            attempts,
            MachineError::Protocol(message),
            pairing_is_final,
        ) == RetryDecision::RetryAfterDelay,
        failed_attempt + 1 < attempts ==> spec_after_failure(
            failed_attempt,
            attempts,
            MachineError::UploadFailed(status),
            pairing_is_final,
        ) == RetryDecision::RetryAfterDelay,
        (e is Rejected || e is FileTooLarge || e is InsufficientStorage || e is UnsupportedFormat)
            ==> spec_after_failure(failed_attempt, attempts, e, pairing_is_final)
            == RetryDecision::Stop,
        e is PairingRequired && failed_attempt + 1 < attempts ==> (spec_after_failure(
            failed_attempt,
            attempts,
            e,
            pairing_is_final,
        ) == RetryDecision::Stop <==> pairing_is_final),
        failed_attempt + 1 >= attempts ==> spec_after_failure(
            failed_attempt,
            attempts,
            e,
            pairing_is_final,
        ) == RetryDecision::Stop,
{
}

/// Every failure the HTTP client reports is worth another attempt.
pub proof fn law_classified_transport_failures_are_retryable(
    is_timeout: bool,
    is_connect: bool,
    detail: String,
    pairing_is_final: bool,
)
    ensures
        spec_retryable(spec_classify_transport(is_timeout, is_connect, detail), pairing_is_final),
{
}

/// A transport-level failure as the HTTP client reports it: timed out,
/// could not connect, or anything else (with its root-cause message).
pub open spec fn spec_classify_transport(is_timeout: bool, is_connect: bool, detail: String) -> MachineError {
    if is_timeout {
        MachineError::Timeout
    } else if is_connect {
        MachineError::Unreachable(detail)
    } else {
        MachineError::Protocol(detail)
    }
}

/// Classify a transport failure into the neutral error type.
pub fn classify_transport(is_timeout: bool, is_connect: bool, detail: String) -> (r: MachineError)
    ensures
        r == spec_classify_transport(is_timeout, is_connect, detail),
{
    if is_timeout {
        MachineError::Timeout
    } else if is_connect {
        MachineError::Unreachable(detail)
    } else {
        MachineError::Protocol(detail)
    }
}

} // verus!
