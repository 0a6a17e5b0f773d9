//! Data models of the EmberConnect dongle's JSON API (decoded at the edge;
//! fields are camelCase on the wire).
use crate::text::same_text;
use vstd::prelude::*;

verus! {

/// `GET /api/health`
#[derive(Debug, Clone, PartialEq, Eq)]
pub struct Health {
    pub ok: bool,
    pub name: String,
    pub version: Option<String>,
    pub serial: Option<String>,
    /// The name the user gave the machine during setup (empty if none).
    pub device_name: String,
}

impl Health {
    /// A device is an EmberConnect dongle iff its health answer is ok and
    /// carries the product name.
    pub fn is_ember_connect(&self) -> (r: bool)
        ensures
            r == (self.ok && self.name@ == "EmberConnect"@),
    {
        self.ok && same_text(self.name.as_str(), "EmberConnect")
    }
}

/// `GET /api/info`
#[derive(Debug, Clone, PartialEq, Eq)]
pub struct DongleInfo {
    pub name: String,
    pub version: Option<String>,
    pub serial: Option<String>,
    pub storage: DongleStorage,
}

/// Card space of the dongle.
#[derive(Debug, Clone, Copy, PartialEq, Eq)]
pub struct DongleStorage {
    pub total_bytes: u64,
    pub free_bytes: u64,
}

/// `GET /api/files`
#[derive(Debug, Clone, PartialEq, Eq)]
pub struct FileList {
    pub files: Vec<DongleFile>,
}

/// One file on the dongle's card.
#[derive(Debug, Clone, PartialEq, Eq)]
pub struct DongleFile {
    pub name: String,
    pub size: u64,
}

/// `POST /api/upload` success body.
#[derive(Debug, Clone, PartialEq, Eq)]
pub struct UploadResponse {
    pub ok: bool,
    pub file: Option<DongleFile>,
}

/// Error envelope: `{"error": {"code": "...", "message": "..."}}`.
#[derive(Debug, Clone, PartialEq, Eq)]
pub struct ErrorResponse {
    pub error: ErrorBody,
}

/// Body of the error envelope.
#[derive(Debug, Clone, PartialEq, Eq)]
pub struct ErrorBody {
    pub code: String,
    pub message: String,
}

/// `POST /api/pair` success body.
#[derive(Debug, Clone, PartialEq, Eq)]
pub struct PairResponse {
    pub token: String,
    pub serial: Option<String>,
}

} // verus!
