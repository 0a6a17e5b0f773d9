//! Data models for the Brother wire formats.
//!
//! `/info` is JSON (decoded at the edge into [`BrotherInfo`]); the sewing
//! endpoint answers with a small XML document parsed by
//! [`crate::brother::protocol`] into [`SewingResponse`].
use vstd::prelude::*;

verus! {

/// Parsed form of the XML returned by `POST /sewing/sewing.cgi`.
#[derive(Debug, Clone, PartialEq, Eq)]
pub struct SewingResponse {
    /// 0 means OK; anything else is a machine-side rejection.
    pub error_code: i64,
    pub session_id: Option<String>,
    /// Upload endpoint advertised by the machine.
    pub upload_path: Option<String>,
    /// Total design memory, bytes.
    pub upload_size: Option<u64>,
    /// Free design memory, bytes.
    pub upload_freesize: Option<u64>,
    /// Files currently in machine memory (names assigned by the machine).
    pub files: Vec<String>,
}

/// The characters of an optional string.
pub open spec fn opt_chars(o: Option<String>) -> Option<Seq<char>> {
    match o {
        Some(s) => Some(s@),
        None => None,
    }
}

/// The characters of each string in a list.
pub open spec fn strings_view(v: Seq<String>) -> Seq<Seq<char>> {
    v.map_values(|s: String| s@)
}

} // verus!

verus! {

/// One advertised protocol API of `/info` (`apis.<name>.version`).
#[derive(Debug, Clone, PartialEq, Eq)]
pub struct BrotherApi {
    pub version: i64,
}

/// `features` object of `/info`. Dimensions are in 0.1 mm units
/// (1600 = 160 mm); `postsize` is the maximum upload size in bytes.
#[derive(Debug, Clone, PartialEq, Eq)]
pub struct BrotherFeatures {
    pub embwidth: Option<u64>,
    pub embheight: Option<u64>,
    pub needles: Option<u32>,
    pub postsize: Option<u64>,
}

/// Response of `GET /info`. Everything is optional, because firmware
/// versions differ in which fields they include and identification should
/// degrade gracefully rather than fail on a missing key.
#[derive(Debug, Clone, PartialEq, Eq)]
pub struct BrotherInfo {
    /// Numeric model code (e.g. 56 for the Innov-is BP-series).
    pub model: Option<i64>,
    pub machine_type: Option<i64>,
    pub oem: Option<i64>,
    pub version: Option<String>,
    pub machine_id: Option<String>,
    pub serial: Option<String>,
    /// User-assigned machine name, e.g. "BETTY".
    pub name: Option<String>,
    /// Available protocol APIs by name. The design-transfer protocol is
    /// `"pedxml"`; its presence is how a Brother embroidery machine is
    /// recognized.
    pub apis: Vec<(String, BrotherApi)>,
    pub features: BrotherFeatures,
}

/// Some advertised API has this name.
pub open spec fn has_api(apis: Seq<(String, BrotherApi)>, name: Seq<char>) -> bool {
    exists|i: int| 0 <= i < apis.len() && #[trigger] apis[i].0@ == name
}

impl BrotherInfo {
    /// Does this device speak the design-transfer protocol we implement?
    pub fn supports_pedxml(&self) -> (r: bool)
        ensures
            r == has_api(self.apis@, "pedxml"@),
    {
        let mut i: usize = 0;
        while i < self.apis.len()
            invariant
                i <= self.apis.len(),
                forall|j: int| 0 <= j < i ==> #[trigger] self.apis@[j].0@ != "pedxml"@,
            decreases self.apis.len() - i,
        {
            if crate::text::same_text(self.apis[i].0.as_str(), "pedxml") {
                return true;
            }
            i += 1;
        }
        false
    }
}

} // verus!
