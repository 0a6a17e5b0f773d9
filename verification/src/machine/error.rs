//! Manufacturer-neutral error type for machine communication.
//!
//! Every backend translates its transport- and protocol-level failures into
//! this enum so that the localhost API can map them to stable, structured
//! JSON errors without knowing anything about the underlying protocol.
use crate::text::{dec_digits, dec_signed, push_i64, push_str, push_u64};
use vstd::prelude::*;

verus! {

/// Why talking to a machine failed.
#[derive(Debug, Clone, PartialEq, Eq)]
pub enum MachineError {
    /// TCP/TLS level failure: host down, wrong IP, connection refused.
    Unreachable(String),
    /// The request was sent but the machine did not answer in time.
    Timeout,
    /// The machine answered, but not in the shape the protocol expects.
    Protocol(String),
    /// The machine understood the request and explicitly rejected it.
    Rejected { code: i64 },
    /// The design exceeds the machine's maximum accepted file size.
    FileTooLarge { size: u64, limit: u64 },
    /// The design fits the size limit but the machine's memory is too full.
    InsufficientStorage { size: u64, free: u64 },
    /// The file extension is not one this machine can load.
    UnsupportedFormat { format: String, supported: String },
    /// The upload completed at the HTTP level but with an unexpected status.
    UploadFailed(u16),
    /// The machine requires this computer to pair first and refused our
    /// attempt; the hint tells the user what to do at the machine.
    PairingRequired { hint: String },
}

/// The stable machine-readable code of each error kind.
pub open spec fn spec_error_code(e: MachineError) -> Seq<char> {
    match e {
        MachineError::Unreachable(_) => "machine_unreachable"@,
        MachineError::Timeout => "machine_timeout"@,
        MachineError::Protocol(_) => "protocol_error"@,
        MachineError::Rejected { .. } => "machine_rejected"@,
        MachineError::FileTooLarge { .. } => "file_too_large"@,
        MachineError::InsufficientStorage { .. } => "insufficient_storage"@,
        MachineError::UnsupportedFormat { .. } => "unsupported_format"@,
        MachineError::UploadFailed(_) => "upload_failed"@,
        MachineError::PairingRequired { .. } => "pairing_required"@,
    }
}

/// How Rust's `Debug` renders a string: quoted, with escapes.
pub uninterp spec fn str_debug(s: Seq<char>) -> Seq<char>;

/// `format!("{:?}", s)`: the string quoted and escaped as `Debug` writes it.
#[verifier::external_body]
fn debug_quoted(s: &str) -> (r: String)
    ensures
        r@ == str_debug(s@),
{
    format!("{:?}", s)
}

/// The human-readable message of each error.
pub open spec fn spec_error_message(e: MachineError) -> Seq<char> {
    match e {
        MachineError::Unreachable(m) => "machine unreachable: "@ + m@,
        MachineError::Timeout => "request to machine timed out"@,
        MachineError::Protocol(m) => "protocol error: "@ + m@,
        MachineError::Rejected { code } => "machine rejected the request (machine error code "@
            + dec_signed(code as int) + ")"@,
        MachineError::FileTooLarge { size, limit } => "design is "@ + dec_digits(size as nat)
            + " bytes but the machine accepts at most "@ + dec_digits(limit as nat) + " bytes"@,
        MachineError::InsufficientStorage { size, free } =>
            "not enough free memory on the machine: design is "@ + dec_digits(size as nat)
            + " bytes, "@ + dec_digits(free as nat) + " bytes free"@,
        MachineError::UnsupportedFormat { format, supported } => "unsupported design format "@
            + str_debug(format@) + "; this machine accepts "@ + supported@,
        MachineError::UploadFailed(status) => "upload rejected with HTTP status "@ + dec_digits(
            status as nat,
        ),
        MachineError::PairingRequired { hint } => "machine requires pairing: "@ + hint@,
    }
}

impl MachineError {
    /// A variant-by-variant copy.
    pub fn duplicate(&self) -> (r: MachineError)
        ensures
            r == *self,
    {
        match self {
            MachineError::Unreachable(m) => MachineError::Unreachable(m.clone()),
            MachineError::Timeout => MachineError::Timeout,
            MachineError::Protocol(m) => MachineError::Protocol(m.clone()),
            MachineError::Rejected { code } => MachineError::Rejected { code: *code },
            MachineError::FileTooLarge { size, limit } => MachineError::FileTooLarge {
                size: *size,
                limit: *limit,
            },
            MachineError::InsufficientStorage { size, free } => MachineError::InsufficientStorage {
                size: *size,
                free: *free,
            },
            MachineError::UnsupportedFormat { format, supported } => MachineError::UnsupportedFormat {
                format: format.clone(),
                supported: supported.clone(),
            },
            MachineError::UploadFailed(s) => MachineError::UploadFailed(*s),
            MachineError::PairingRequired { hint } => MachineError::PairingRequired {
                hint: hint.clone(),
            },
        }
    }

    /// Stable machine-readable error code exposed by the localhost API.
    pub fn code(&self) -> (r: &'static str)
        ensures
            r@ == spec_error_code(*self),
    {
        match self {
            MachineError::Unreachable(_) => "machine_unreachable",
            MachineError::Timeout => "machine_timeout",
            MachineError::Protocol(_) => "protocol_error",
            MachineError::Rejected { .. } => "machine_rejected",
            MachineError::FileTooLarge { .. } => "file_too_large",
            MachineError::InsufficientStorage { .. } => "insufficient_storage",
            MachineError::UnsupportedFormat { .. } => "unsupported_format",
            MachineError::UploadFailed(_) => "upload_failed",
            MachineError::PairingRequired { .. } => "pairing_required",
        }
    }

    /// The human-readable message, as the API reports it.
    pub fn message(&self) -> (r: String)
        ensures
            r@ == spec_error_message(*self),
    {
        let mut out = String::new();
        match self {
            MachineError::Unreachable(m) => {
                push_str(&mut out, "machine unreachable: ");
                push_str(&mut out, m.as_str());
            },
            MachineError::Timeout => {
                push_str(&mut out, "request to machine timed out");
            },
            MachineError::Protocol(m) => {
                push_str(&mut out, "protocol error: ");
                push_str(&mut out, m.as_str());
            },
            MachineError::Rejected { code } => {
                push_str(&mut out, "machine rejected the request (machine error code ");
                push_i64(&mut out, *code);
                push_str(&mut out, ")");
            },
            MachineError::FileTooLarge { size, limit } => {
                push_str(&mut out, "design is ");
                push_u64(&mut out, *size);
                push_str(&mut out, " bytes but the machine accepts at most ");
                push_u64(&mut out, *limit);
                push_str(&mut out, " bytes");
            },
            MachineError::InsufficientStorage { size, free } => {
                push_str(&mut out, "not enough free memory on the machine: design is ");
                push_u64(&mut out, *size);
                push_str(&mut out, " bytes, ");
                push_u64(&mut out, *free);
                push_str(&mut out, " bytes free");
            },
            MachineError::UnsupportedFormat { format, supported } => {
                push_str(&mut out, "unsupported design format ");
                let quoted = debug_quoted(format.as_str());
                push_str(&mut out, quoted.as_str());
                push_str(&mut out, "; this machine accepts ");
                push_str(&mut out, supported.as_str());
            },
            MachineError::UploadFailed(status) => {
                push_str(&mut out, "upload rejected with HTTP status ");
                push_u64(&mut out, *status as u64);
            },
            MachineError::PairingRequired { hint } => {
                push_str(&mut out, "machine requires pairing: ");
                push_str(&mut out, hint.as_str());
            },
        }
        proof {
            assert(out@ =~= spec_error_message(*self));
        }
        out
    }
}

} // verus!
