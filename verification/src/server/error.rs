//! Structured errors for the localhost API.
//!
//! Every failure leaves the API as
//! `{"error": {"code": "<stable_snake_case>", "message": "<human text>"}}`
//! with an HTTP status, so Ember can branch on `code` without parsing prose.
use crate::machine::error::{spec_error_code, spec_error_message, MachineError};
use vstd::prelude::*;

verus! {

pub const STATUS_BAD_REQUEST: u16 = 400;
pub const STATUS_UNAUTHORIZED: u16 = 401;
pub const STATUS_FORBIDDEN: u16 = 403;
pub const STATUS_NOT_FOUND: u16 = 404;
pub const STATUS_CONFLICT: u16 = 409;
pub const STATUS_UNPROCESSABLE_ENTITY: u16 = 422;
pub const STATUS_INTERNAL_SERVER_ERROR: u16 = 500;
pub const STATUS_BAD_GATEWAY: u16 = 502;
pub const STATUS_GATEWAY_TIMEOUT: u16 = 504;

/// An API failure: HTTP status, stable code, human message.
#[derive(Debug, Clone, PartialEq, Eq)]
pub struct ApiError {
    pub status: u16,
    pub code: String,
    pub message: String,
}

/// The HTTP status a machine failure is reported with: gateway-style when
/// the machine could not be reached, answered nonsense or refused; 422 when
/// the request itself is unacceptable for this machine.
pub open spec fn spec_machine_status(e: MachineError) -> u16 {
    match e {
        MachineError::Unreachable(_) => STATUS_BAD_GATEWAY,
        MachineError::Protocol(_) => STATUS_BAD_GATEWAY,
        MachineError::Rejected { .. } => STATUS_BAD_GATEWAY,
        MachineError::UploadFailed(_) => STATUS_BAD_GATEWAY,
        MachineError::PairingRequired { .. } => STATUS_BAD_GATEWAY,
        MachineError::Timeout => STATUS_GATEWAY_TIMEOUT,
        MachineError::FileTooLarge { .. } => STATUS_UNPROCESSABLE_ENTITY,
        MachineError::InsufficientStorage { .. } => STATUS_UNPROCESSABLE_ENTITY,
        MachineError::UnsupportedFormat { .. } => STATUS_UNPROCESSABLE_ENTITY,
    }
}

/// Executable [`spec_machine_status`].
pub fn machine_status(e: &MachineError) -> (r: u16)
    ensures
        r == spec_machine_status(*e),
{
    match e {
        MachineError::Unreachable(_) => STATUS_BAD_GATEWAY,
        MachineError::Protocol(_) => STATUS_BAD_GATEWAY,
        MachineError::Rejected { .. } => STATUS_BAD_GATEWAY,
        MachineError::UploadFailed(_) => STATUS_BAD_GATEWAY,
        MachineError::PairingRequired { .. } => STATUS_BAD_GATEWAY,
        MachineError::Timeout => STATUS_GATEWAY_TIMEOUT,
        MachineError::FileTooLarge { .. } => STATUS_UNPROCESSABLE_ENTITY,
        MachineError::InsufficientStorage { .. } => STATUS_UNPROCESSABLE_ENTITY,
        MachineError::UnsupportedFormat { .. } => STATUS_UNPROCESSABLE_ENTITY,
    }
}

fn owned(s: &str) -> (r: String)
    ensures
        r@ == s@,
{
    s.to_owned()
}

impl ApiError {
    /// 400 with the given code.
    pub fn bad_request(code: &str, message: String) -> (r: ApiError)
        ensures
            r.status == STATUS_BAD_REQUEST && r.code@ == code@ && r.message == message,
    {
        ApiError { status: STATUS_BAD_REQUEST, code: owned(code), message }
    }

    /// 403 with the given code.
    pub fn forbidden(code: &str, message: String) -> (r: ApiError)
        ensures
            r.status == STATUS_FORBIDDEN && r.code@ == code@ && r.message == message,
    {
        ApiError { status: STATUS_FORBIDDEN, code: owned(code), message }
    }

    /// 409 with the given code.
    pub fn conflict(code: &str, message: String) -> (r: ApiError)
        ensures
            r.status == STATUS_CONFLICT && r.code@ == code@ && r.message == message,
    {
        ApiError { status: STATUS_CONFLICT, code: owned(code), message }
    }

    /// 404 `not_found`.
    pub fn not_found(message: String) -> (r: ApiError)
        ensures
            r.status == STATUS_NOT_FOUND && r.code@ == "not_found"@ && r.message == message,
    {
        ApiError { status: STATUS_NOT_FOUND, code: owned("not_found"), message }
    }

    /// 401 `unauthorized`.
    pub fn unauthorized() -> (r: ApiError)
        ensures
            r.status == STATUS_UNAUTHORIZED && r.code@ == "unauthorized"@ && r.message@
                == "missing or invalid API token"@,
    {
        ApiError {
            status: STATUS_UNAUTHORIZED,
            code: owned("unauthorized"),
            message: owned("missing or invalid API token"),
        }
    }

    /// 500 `internal_error`.
    pub fn internal(message: String) -> (r: ApiError)
        ensures
            r.status == STATUS_INTERNAL_SERVER_ERROR && r.code@ == "internal_error"@ && r.message
                == message,
    {
        ApiError { status: STATUS_INTERNAL_SERVER_ERROR, code: owned("internal_error"), message }
    }

    /// A machine failure, reported with its stable code and message.
    pub fn from_machine(e: &MachineError) -> (r: ApiError)
        ensures
            r.status == spec_machine_status(*e),
            r.code@ == spec_error_code(*e),
            r.message@ == spec_error_message(*e),
    {
        ApiError { status: machine_status(e), code: owned(e.code()), message: e.message() }
    }
}

} // verus!
