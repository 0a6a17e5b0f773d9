//! Manufacturer-neutral data models.
//!
//! These are the only machine-related types the localhost API (and
//! therefore Ember and the UI) ever sees. Backends translate their native
//! wire formats into these structs.
use crate::machine::net::NetAddr;
use vstd::prelude::*;

verus! {

/// Who a machine is: identity data that does not change between requests.
#[derive(Debug, Clone, PartialEq, Eq)]
pub struct MachineIdentity {
    /// Backend identifier, e.g. `"brother"`. Stable, lowercase.
    pub manufacturer: String,
    /// Human-readable model designation.
    pub model: String,
    /// User-assigned machine name, if the machine has one.
    pub name: Option<String>,
    /// Firmware version string, e.g. `"1.71"`.
    pub firmware: Option<String>,
    /// Serial number, if reported.
    pub serial: Option<String>,
    /// The address we talked to.
    pub ip: NetAddr,
}

/// What a machine can do: static capabilities and limits.
#[derive(Debug, Clone, PartialEq, Eq)]
pub struct MachineCapabilities {
    /// Maximum embroidery width, in tenths of a millimetre.
    pub emb_width_tenth_mm: Option<u64>,
    /// Maximum embroidery height, in tenths of a millimetre.
    pub emb_height_tenth_mm: Option<u64>,
    /// Number of needles (1 for home machines, more for multi-needle).
    pub needles: Option<u32>,
    /// Largest single design file the machine will accept, in bytes.
    pub max_file_bytes: Option<u64>,
    /// File extensions (lowercase, without dot) the machine can load.
    pub formats: Vec<String>,
}

/// Full identification of a machine: identity + capabilities.
#[derive(Debug, Clone, PartialEq, Eq)]
pub struct MachineInfo {
    pub identity: MachineIdentity,
    pub capabilities: MachineCapabilities,
}

/// Live storage state of a machine's design memory.
#[derive(Debug, Clone, PartialEq, Eq)]
pub struct StorageStatus {
    pub total_bytes: u64,
    pub free_bytes: u64,
    pub used_bytes: u64,
    /// Design files currently held in machine memory.
    pub files: Vec<String>,
}

/// A design to be sent to a machine.
#[derive(Debug, Clone, PartialEq, Eq)]
pub struct UploadRequest {
    /// The filename the design was sent under; used for format detection.
    pub filename: String,
    pub data: Vec<u8>,
}

/// Result of a successful upload.
#[derive(Debug, Clone, PartialEq, Eq)]
pub struct UploadReceipt {
    pub bytes_sent: u64,
    /// Name the machine stored the design under, when known.
    pub stored_as: Option<String>,
}

/// Progress of an in-flight upload.
#[derive(Debug, Clone, Copy, PartialEq, Eq)]
pub struct UploadProgress {
    pub sent_bytes: u64,
    pub total_bytes: u64,
}

/// A machine found during discovery.
#[derive(Debug, Clone, PartialEq, Eq)]
pub struct DiscoveredMachine {
    pub info: MachineInfo,
}

} // verus!
