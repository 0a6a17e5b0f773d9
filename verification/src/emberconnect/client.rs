//! The decisions of the EmberConnect HTTP client: identity from the health
//! answer, storage from info and file list, the dongle's error envelope,
//! pairing hints and upload progress. The HTTP transport runs outside.
use crate::brother::models::strings_view;
use crate::emberconnect::models::{DongleInfo, FileList, Health};
use crate::machine::error::MachineError;
use crate::machine::retry::spec_retryable;
use crate::machine::models::{
    MachineCapabilities, MachineIdentity, MachineInfo, StorageStatus, UploadProgress, UploadReceipt,
};
use crate::machine::net::NetAddr;
use crate::server::jobs::copy_opt_string;
use crate::text::{chars_of, push_range, push_str, same_text};
use vstd::prelude::*;
use vstd::string::StringSliceAdditionalSpecFns;
use vstd::utf8::{decode_utf8, encode_utf8, is_char_boundary};

verus! {

/// Backend identifier.
pub const MANUFACTURER: &'static str = "emberconnect";

/// Attempts for reads.
pub const READ_RETRIES: u32 = 3;

/// Attempts for an upload: uploads overwrite by name on the dongle, so one
/// retry is safe.
pub const UPLOAD_RETRIES: u32 = 2;

/// How this computer introduces itself when pairing; the dongle shows the
/// name in its paired-clients list.
pub const PAIR_CLIENT_NAME: &'static str = "Ember Bridge";

/// Formats commonly readable from a USB stick across manufacturers. The
/// dongle stores anything; the machine behind it decides what it can load,
/// and that machine cannot be seen, so the broad set is advertised.
pub open spec fn spec_common_formats() -> Seq<Seq<char>> {
    seq!["pes"@, "pec"@, "dst"@, "exp"@, "jef"@, "vp3"@, "hus"@, "vip"@, "xxx"@]
}

/// The broad set of USB-stick formats.
pub fn common_formats() -> (r: Vec<String>)
    ensures
        strings_view(r@) == spec_common_formats(),
{
    let mut v: Vec<String> = Vec::new();
    v.push("pes".to_owned());
    v.push("pec".to_owned());
    v.push("dst".to_owned());
    v.push("exp".to_owned());
    v.push("jef".to_owned());
    v.push("vp3".to_owned());
    v.push("hus".to_owned());
    v.push("vip".to_owned());
    v.push("xxx".to_owned());
    assert(strings_view(v@) =~= spec_common_formats());
    v
}

/// The name shown for a dongle: the name given during setup; for unnamed
/// dongles the setup-hotspot naming, `EmberConnect-` plus the last four
/// bytes of a serial of at least four bytes.
pub open spec fn spec_dongle_name(device_name: Seq<char>, serial: Option<Seq<char>>) -> Option<
    Seq<char>,
> {
    if device_name.len() > 0 {
        Some(device_name)
    } else {
        match serial {
            Some(s) if encode_utf8(s).len() >= 4 => Some(
                "EmberConnect-"@ + decode_utf8(
                    encode_utf8(s).subrange(encode_utf8(s).len() - 4, encode_utf8(s).len() as int),
                ),
            ),
            _ => None,
        }
    }
}

/// The fallback name can be cut out of the serial: its last four bytes
/// begin on a character boundary (a serial is cut by bytes, and a cut
/// inside a character is refused).
pub open spec fn dongle_name_cuttable(device_name: Seq<char>, serial: Option<Seq<char>>) -> bool {
    device_name.len() == 0 ==> match serial {
        Some(s) => encode_utf8(s).len() >= 4 ==> is_char_boundary(
            encode_utf8(s),
            encode_utf8(s).len() - 4,
        ),
        None => true,
    }
}

/// What the dongle's health answer says of the dongle at `ip`.
pub open spec fn is_dongle_machine_info(health: Health, ip: NetAddr, r: MachineInfo) -> bool {
    &&& r.identity.manufacturer@ == "emberconnect"@
    &&& r.identity.model@ == "EmberConnect dongle"@
    &&& crate::brother::models::opt_chars(r.identity.name) == spec_dongle_name(
        health.device_name@,
        crate::brother::models::opt_chars(health.serial),
    )
    &&& r.identity.firmware == health.version
    &&& r.identity.serial == health.serial
    &&& r.identity.ip == ip
    &&& r.capabilities.emb_width_tenth_mm is None
    &&& r.capabilities.emb_height_tenth_mm is None
    &&& r.capabilities.needles is None
    &&& r.capabilities.max_file_bytes is None
    &&& strings_view(r.capabilities.formats@) == spec_common_formats()
}

/// Translate the health answer into the neutral identity and capabilities.
/// The dongle cannot know the attached machine's hoop size, and its size
/// limit is card space, checked live per upload.
pub fn dongle_machine_info(health: &Health, ip: NetAddr) -> (r: MachineInfo)
    requires
        dongle_name_cuttable(health.device_name@, crate::brother::models::opt_chars(health.serial)),
    ensures
        is_dongle_machine_info(*health, ip, r),
{
    broadcast use vstd::utf8::encode_utf8_valid_utf8, vstd::utf8::encode_utf8_decode_utf8;

    let name = if !health.device_name.as_str().is_empty() {
        Some(health.device_name.clone())
    } else {
        match &health.serial {
            Some(s) => {
                let st: &str = s.as_str();
                let n = st.as_bytes().len();
                proof {
                    assert(health.serial == Some(*s));
                    assert(st@ == s@);
                    assert(st.spec_bytes() == encode_utf8(s@));
                    assert(n == encode_utf8(s@).len());
                }
                if n >= 4 {
                    let (_, tail) = st.split_at(n - 4);
                    let mut name = String::new();
                    push_str(&mut name, "EmberConnect-");
                    push_str(&mut name, tail);
                    proof {
                        let bytes = encode_utf8(s@);
                        assert(tail.spec_bytes() == encode_utf8(tail@));
                        assert(tail.spec_bytes() == bytes.subrange(bytes.len() - 4, bytes.len() as int));
                        assert(decode_utf8(encode_utf8(tail@)) == tail@);
                        assert(name@ == "EmberConnect-"@ + decode_utf8(
                            bytes.subrange(bytes.len() - 4, bytes.len() as int),
                        ));
                    }
                    Some(name)
                } else {
                    None
                }
            },
            None => None,
        }
    };
    MachineInfo {
        identity: MachineIdentity {
            manufacturer: MANUFACTURER.to_owned(),
            model: "EmberConnect dongle".to_owned(),
            name,
            firmware: copy_opt_string(&health.version),
            serial: copy_opt_string(&health.serial),
            ip,
        },
        capabilities: MachineCapabilities {
            emb_width_tenth_mm: None,
            emb_height_tenth_mm: None,
            needles: None,
            max_file_bytes: None,
            formats: common_formats(),
        },
    }
}

/// The dongle is not an EmberConnect device: the `info` call refuses it.
pub fn check_is_dongle(health: Health) -> (r: Result<Health, MachineError>)
    ensures
        (health.ok && health.name@ == "EmberConnect"@) ==> r == Ok::<Health, MachineError>(health),
        !(health.ok && health.name@ == "EmberConnect"@) ==> (r matches Err(
            MachineError::Protocol(m),
        ) && m@ == "device at this address is not an EmberConnect dongle"@),
{
    if health.is_ember_connect() {
        Ok(health)
    } else {
        Err(MachineError::Protocol("device at this address is not an EmberConnect dongle".to_owned()))
    }
}

/// Storage from the dongle's info and file list.
pub fn dongle_storage(info: &DongleInfo, files: FileList) -> (r: StorageStatus)
    ensures
        r.total_bytes == info.storage.total_bytes,
        r.free_bytes == info.storage.free_bytes,
        r.used_bytes == if info.storage.total_bytes >= info.storage.free_bytes {
            info.storage.total_bytes - info.storage.free_bytes
        } else {
            0
        },
        r.files@.len() == files.files@.len(),
        forall|i: int| 0 <= i < r.files@.len() ==> #[trigger] r.files@[i] == files.files@[i].name,
{
    let total = info.storage.total_bytes;
    let free = info.storage.free_bytes;
    let mut names: Vec<String> = Vec::new();
    let mut i: usize = 0;
    while i < files.files.len()
        invariant
            i <= files.files.len(),
            names@.len() == i,
            forall|j: int| 0 <= j < i ==> #[trigger] names@[j] == files.files@[j].name,
        decreases files.files.len() - i,
    {
        names.push(files.files[i].name.clone());
        i += 1;
    }
    StorageStatus {
        total_bytes: total,
        free_bytes: free,
        used_bytes: if total >= free {
            total - free
        } else {
            0
        },
        files: names,
    }
}

/// Free-space check before streaming: the dongle enforces it too, but
/// checking first avoids streaming megabytes to a full card and names the
/// exact free figure.
pub fn check_card_space(size: u64, info: &DongleInfo) -> (r: Result<(), MachineError>)
    ensures
        size <= info.storage.free_bytes ==> r is Ok,
        size > info.storage.free_bytes ==> r == Err::<(), MachineError>(
            MachineError::InsufficientStorage { size, free: info.storage.free_bytes },
        ),
{
    let free = info.storage.free_bytes;
    if size > free {
        Err(MachineError::InsufficientStorage { size, free })
    } else {
        Ok(())
    }
}

/// `e` is the neutral error for the dongle's error envelope with code
/// `code`, answered with HTTP `status` to an upload of `size` bytes.
pub open spec fn is_api_error(status: u16, code: Seq<char>, size: u64, e: MachineError) -> bool {
    if code == "insufficient_storage"@ {
        e == (MachineError::InsufficientStorage { size, free: 0 })
    } else if code == "invalid_filename"@ {
        e matches MachineError::Protocol(m) && m@
            == "the dongle rejected the filename (FAT-illegal characters?)"@
    } else {
        e == MachineError::UploadFailed(status)
    }
}

/// Translate the dongle's structured error envelope into the neutral type.
pub fn map_api_error(status: u16, code: &str, size: u64) -> (r: MachineError)
    ensures
        is_api_error(status, code@, size, r),
{
    proof {
        reveal_strlit("insufficient_storage");
        reveal_strlit("invalid_filename");
        assert("insufficient_storage"@.len() != "invalid_filename"@.len());
    }
    if same_text(code, "insufficient_storage") {
        MachineError::InsufficientStorage { size, free: 0 }
    } else if same_text(code, "invalid_filename") {
        MachineError::Protocol("the dongle rejected the filename (FAT-illegal characters?)".to_owned())
    } else {
        MachineError::UploadFailed(status)
    }
}

/// What the user is told when the dongle refuses to pair: its own message
/// when it gave a non-empty one, else how to reopen the pairing window.
pub fn pairing_hint(message: Option<String>) -> (r: String)
    ensures
        match message {
            Some(m) if m@.len() > 0 => r@ == m@,
            _ => r@ == "unplug and replug the dongle, then try again within 5 minutes"@,
        },
{
    match message {
        Some(m) => if !m.as_str().is_empty() {
            m
        } else {
            "unplug and replug the dongle, then try again within 5 minutes".to_owned()
        },
        None => "unplug and replug the dongle, then try again within 5 minutes".to_owned(),
    }
}

/// Bytes out so far, capped at the design size.
pub open spec fn spec_stream_progress(sent: u64, size: u64) -> u64 {
    if sent <= size {
        sent
    } else {
        size
    }
}

/// Progress while streaming: bytes out so far, capped at the design size.
pub fn stream_progress(sent: u64, size: u64) -> (r: UploadProgress)
    ensures
        r.sent_bytes == spec_stream_progress(sent, size),
        r.total_bytes == size,
{
    UploadProgress { sent_bytes: if sent <= size { sent } else { size }, total_bytes: size }
}

/// Streaming progress starts at 0, ends at the design size, never goes
/// backwards and never passes the design size.
pub proof fn law_stream_progress_monotonic(a: u64, b: u64, size: u64)
    requires
        a <= b,
    ensures
        spec_stream_progress(a, size) <= spec_stream_progress(b, size),
        spec_stream_progress(b, size) <= size,
        spec_stream_progress(0, size) == 0,
        spec_stream_progress(size, size) == size,
{
}

/// What one upload attempt's answer means.
#[derive(Debug, Clone, PartialEq, Eq)]
pub enum UploadAnswer {
    /// Stored: the receipt to report.
    Stored(UploadReceipt),
    /// HTTP 401: the stored token went stale. Forget it, pair again, and
    /// fail this attempt with [`stale_token_error`] so the retry loop sends
    /// once more with the fresh token.
    Repair,
    /// Refused: the error to report.
    Failed(MachineError),
}

/// Classify the dongle's answer to `POST /api/upload` of `size` bytes:
/// `status` is the HTTP status, `error_code` the code of its error envelope
/// (empty when the body is not one), `stored_as` the name a success
/// reports.
pub fn upload_answer(status: u16, error_code: &str, stored_as: Option<String>, size: u64) -> (r:
    UploadAnswer)
    ensures
        status == 401 ==> r == UploadAnswer::Repair,
        status != 401 && !(200 <= status < 300) ==> (r matches UploadAnswer::Failed(e)
            && is_api_error(status, error_code@, size, e)),
        200 <= status < 300 ==> r == UploadAnswer::Stored(
            UploadReceipt { bytes_sent: size, stored_as },
        ),
{
    if status == 401 {
        UploadAnswer::Repair
    } else if status < 200 || status >= 300 {
        UploadAnswer::Failed(map_api_error(status, error_code, size))
    } else {
        UploadAnswer::Stored(UploadReceipt { bytes_sent: size, stored_as })
    }
}

/// The error that fails an attempt after re-pairing; it is retryable.
pub fn stale_token_error() -> (r: MachineError)
    ensures
        r matches MachineError::Protocol(m) && m@ == "dongle token was stale; re-paired"@,
        spec_retryable(r, true),
{
    MachineError::Protocol("dongle token was stale; re-paired".to_owned())
}

/// What to do with the dongle's answer to an authenticated read.
#[derive(Debug, Clone, Copy, PartialEq, Eq, Structural)]
pub enum ReadAnswer {
    /// Decode the answer as it is.
    Decode,
    /// The dongle refused the token (never paired, revoked, or a
    /// factory-reset dongle): forget it, pair, and ask once more.
    Repair,
}

/// Classify the answer to an authenticated `GET` with HTTP status `status`;
/// `retried` tells whether this answer is already the one to the request
/// sent again after pairing. Only a first answer of 401 leads to pairing;
/// dongles on firmware without tokens never answer 401 and are read as
/// they are.
pub fn read_answer(status: u16, retried: bool) -> (r: ReadAnswer)
    ensures
        r == (if status == 401 && !retried {
            ReadAnswer::Repair
        } else {
            ReadAnswer::Decode
        }),
{
    if status == 401 && !retried {
        ReadAnswer::Repair
    } else {
        ReadAnswer::Decode
    }
}

} // verus!
