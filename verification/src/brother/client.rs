//! The decisions of the Brother HTTPS client: identity and storage from the
//! machine's answers, the checks an upload must pass before any byte is
//! sent, upload progress, and the order of the upload conversation. The
//! HTTPS transport itself (TLS 1.2, self-signed certificate) runs outside.
use crate::brother::models::{opt_chars, strings_view, BrotherInfo, SewingResponse};
use crate::machine::error::MachineError;
use crate::machine::models::{
    MachineCapabilities, MachineIdentity, MachineInfo, StorageStatus, UploadProgress, UploadReceipt,
};
use crate::machine::net::NetAddr;
use crate::machine::retry::{spec_after_failure, RetryDecision};
use crate::server::jobs::copy_opt_string;
use crate::text::{chars_of, dec_signed, push_char, push_i64, push_str, same_text};
use vstd::prelude::*;

verus! {

/// Backend identifier.
pub const MANUFACTURER: &'static str = "brother";

/// Attempts for reads (`/info`, the status call): the embedded server is
/// slow and drops requests under load.
pub const READ_RETRIES: u32 = 4;

/// Attempts for an upload: one retry at most, since a repeated upload could
/// store the design twice.
pub const UPLOAD_RETRIES: u32 = 2;

/// File formats Brother home machines load from memory, comma-joined.
pub const SUPPORTED_FORMATS_TEXT: &'static str = "pes, phc, dst, phx";

/// The file formats Brother home machines load from memory.
pub open spec fn spec_supported_formats() -> Seq<Seq<char>> {
    seq!["pes"@, "phc"@, "dst"@, "phx"@]
}

/// File formats Brother home machines load from memory.
pub fn supported_formats() -> (r: Vec<String>)
    ensures
        strings_view(r@) == spec_supported_formats(),
{
    let mut v: Vec<String> = Vec::new();
    v.push("pes".to_owned());
    v.push("phc".to_owned());
    v.push("dst".to_owned());
    v.push("phx".to_owned());
    assert(strings_view(v@) =~= spec_supported_formats());
    v
}

/// ASCII lowercase of one character.
pub open spec fn lower_char(c: char) -> char {
    if 65 <= (c as u32) <= 90 {
        ((c as u32) + 32) as char
    } else {
        c
    }
}

/// Index of the last `.` in `s`.
pub open spec fn last_dot(s: Seq<char>) -> Option<int>
    decreases s.len(),
{
    if s.len() == 0 {
        None
    } else if s.last() == '.' {
        Some(s.len() - 1)
    } else {
        last_dot(s.drop_last())
    }
}

/// The extension used for format detection: the text after the last `.`
/// (the whole name if it has none), ASCII-lowercased.
pub open spec fn spec_extension(name: Seq<char>) -> Seq<char> {
    let tail = match last_dot(name) {
        Some(i) => name.skip(i + 1),
        None => name,
    };
    tail.map_values(|c: char| lower_char(c))
}

/// The extension of a design's filename.
pub fn file_extension(filename: &str) -> (r: String)
    ensures
        r@ == spec_extension(filename@),
{
    let v = chars_of(filename);
    let mut i = v.len();
    assert(v@.subrange(0, v.len() as int) =~= v@);
    while i > 0 && v[i - 1] != '.'
        invariant
            i <= v.len(),
            last_dot(v@) == last_dot(v@.subrange(0, i as int)),
        decreases i,
    {
        assert(v@.subrange(0, i as int).drop_last() =~= v@.subrange(0, i - 1));
        i -= 1;
    }
    proof {
        if i > 0 {
            assert(v@.subrange(0, i as int).last() == '.');
        }
        assert(v@.subrange(0, v.len() as int) =~= v@);
    }
    let start = i;
    let ghost tail = v@.skip(start as int);
    let mut out = String::new();
    let mut k = start;
    while k < v.len()
        invariant
            start <= k <= v.len(),
            tail == v@.skip(start as int),
            out@ == v@.subrange(start as int, k as int).map_values(|c: char| lower_char(c)),
        decreases v.len() - k,
    {
        let c = v[k];
        let u = c as u32;
        let l = if 65 <= u && u <= 90 {
            let x = (u + 32) as u8;
            x as char
        } else {
            c
        };
        push_char(&mut out, l);
        assert(v@.subrange(start as int, k + 1).map_values(|c: char| lower_char(c)) =~= v@.subrange(
            start as int,
            k as int,
        ).map_values(|c: char| lower_char(c)).push(lower_char(c)));
        k += 1;
    }
    proof {
        assert(v@.subrange(start as int, v.len() as int) =~= tail);
        if start == 0 {
            assert(tail =~= v@);
        }
    }
    out
}

/// The design's format is one the machine loads.
pub open spec fn spec_format_supported(filename: Seq<char>) -> bool {
    spec_supported_formats().contains(spec_extension(filename))
}

/// Format gate: the machine would silently store-and-fail on formats it
/// cannot load, so they are refused before anything is sent.
pub fn check_format(filename: &str) -> (r: Result<(), MachineError>)
    ensures
        r is Ok <==> spec_format_supported(filename@),
        r matches Err(e) ==> e matches MachineError::UnsupportedFormat { format, supported }
            && format@ == spec_extension(filename@) && supported@ == "pes, phc, dst, phx"@,
{
    let ext = file_extension(filename);
    let e = ext.as_str();
    let ok = same_text(e, "pes") || same_text(e, "phc") || same_text(e, "dst") || same_text(
        e,
        "phx",
    );
    proof {
        let f = spec_supported_formats();
        if ok {
            if e@ == "pes"@ {
                assert(f[0] == e@);
            } else if e@ == "phc"@ {
                assert(f[1] == e@);
            } else if e@ == "dst"@ {
                assert(f[2] == e@);
            } else {
                assert(f[3] == e@);
            }
        } else {
            assert forall|i: int| 0 <= i < f.len() implies f[i] != e@ by {}
        }
    }
    if ok {
        Ok(())
    } else {
        Err(MachineError::UnsupportedFormat { format: ext, supported: SUPPORTED_FORMATS_TEXT.to_owned() })
    }
}

/// `size` is within an optional limit.
pub open spec fn within(size: u64, limit: Option<u64>) -> bool {
    match limit {
        Some(l) => size <= l,
        None => true,
    }
}

/// Hard size limit from `/info` (`postsize`).
pub fn check_size_limit(size: u64, postsize: Option<u64>) -> (r: Result<(), MachineError>)
    ensures
        r is Ok <==> within(size, postsize),
        r matches Err(e) ==> e == (MachineError::FileTooLarge { size, limit: postsize->0 }),
{
    match postsize {
        Some(limit) => if size > limit {
            Err(MachineError::FileTooLarge { size, limit })
        } else {
            Ok(())
        },
        None => Ok(()),
    }
}

/// Live free-memory check.
pub fn check_free_memory(size: u64, free: Option<u64>) -> (r: Result<(), MachineError>)
    ensures
        r is Ok <==> within(size, free),
        r matches Err(e) ==> e == (MachineError::InsufficientStorage { size, free: free->0 }),
{
    match free {
        Some(f) => if size > f {
            Err(MachineError::InsufficientStorage { size, free: f })
        } else {
            Ok(())
        },
        None => Ok(()),
    }
}

/// A status answer the machine explicitly rejected is an error.
pub fn check_session(session: SewingResponse) -> (r: Result<SewingResponse, MachineError>)
    ensures
        session.error_code == 0 ==> r == Ok::<SewingResponse, MachineError>(session),
        session.error_code != 0 ==> r == Err::<SewingResponse, MachineError>(
            MachineError::Rejected { code: session.error_code },
        ),
{
    if session.error_code != 0 {
        Err(MachineError::Rejected { code: session.error_code })
    } else {
        Ok(session)
    }
}

/// Upload success is HTTP 204 (as captured); 200 is accepted too.
pub fn upload_status(status: u16) -> (r: Result<(), MachineError>)
    ensures
        (status == 200 || status == 204) ==> r is Ok,
        !(status == 200 || status == 204) ==> r == Err::<(), MachineError>(
            MachineError::UploadFailed(status),
        ),
{
    if status == 200 || status == 204 {
        Ok(())
    } else {
        Err(MachineError::UploadFailed(status))
    }
}

/// Memory usage and file list from a status answer (missing sizes read as 0).
pub fn storage_from_session(session: SewingResponse) -> (r: StorageStatus)
    ensures
        r.total_bytes == match session.upload_size {
            Some(t) => t,
            None => 0,
        },
        r.free_bytes == match session.upload_freesize {
            Some(f) => f,
            None => 0,
        },
        r.used_bytes == if r.total_bytes >= r.free_bytes {
            r.total_bytes - r.free_bytes
        } else {
            0
        },
        r.files == session.files,
{
    let total = match session.upload_size {
        Some(t) => t,
        None => 0,
    };
    let free = match session.upload_freesize {
        Some(f) => f,
        None => 0,
    };
    StorageStatus {
        total_bytes: total,
        free_bytes: free,
        used_bytes: if total >= free {
            total - free
        } else {
            0
        },
        files: session.files,
    }
}

/// Index of the first name of `after` that is not in `before`.
pub open spec fn first_new_index(before: Seq<Seq<char>>, after: Seq<Seq<char>>, from: int) -> Option<
    int,
>
    decreases after.len() - from,
{
    if from < 0 || from >= after.len() {
        None
    } else if !before.contains(after[from]) {
        Some(from)
    } else {
        first_new_index(before, after, from + 1)
    }
}

/// The name the machine gave the uploaded design: the first file listed
/// after the upload that was not listed before it.
pub fn new_file_name(before: &Vec<String>, after: &Vec<String>) -> (r: Option<String>)
    ensures
        match first_new_index(strings_view(before@), strings_view(after@), 0) {
            Some(i) => r matches Some(n) && n@ == after@[i]@,
            None => r is None,
        },
{
    let ghost b = strings_view(before@);
    let ghost a = strings_view(after@);
    let mut i: usize = 0;
    while i < after.len()
        invariant
            i <= after.len(),
            b == strings_view(before@),
            a == strings_view(after@),
            first_new_index(b, a, 0) == first_new_index(b, a, i as int),
        decreases after.len() - i,
    {
        let name = after[i].as_str();
        let mut j: usize = 0;
        let mut seen = false;
        while j < before.len()
            invariant
                j <= before.len(),
                b == strings_view(before@),
                seen ==> b.contains(name@),
                !seen ==> forall|t: int| 0 <= t < j ==> #[trigger] b[t] != name@,
            decreases before.len() - j,
        {
            if same_text(before[j].as_str(), name) {
                assert(b[j as int] == name@);
                seen = true;
            }
            j += 1;
        }
        assert(a[i as int] == name@);
        if !seen {
            return Some(after[i].clone());
        }
        i += 1;
    }
    None
}

/// Upload progress as the bytes of the request body leave: the multipart
/// framing (`overhead` bytes) is not counted, and the count never exceeds
/// the design size.
pub open spec fn spec_wire_progress(sent: u64, overhead: u64, total: u64) -> u64 {
    let s = if sent >= overhead {
        sent - overhead
    } else {
        0
    };
    if s <= total {
        s as u64
    } else {
        total
    }
}

/// Progress report after `sent` bytes of the request went out.
pub fn wire_progress(sent: u64, overhead: u64, total: u64) -> (r: UploadProgress)
    ensures
        r.sent_bytes == spec_wire_progress(sent, overhead, total),
        r.total_bytes == total,
{
    let s = if sent >= overhead {
        sent - overhead
    } else {
        0
    };
    UploadProgress { sent_bytes: if s <= total { s } else { total }, total_bytes: total }
}

/// Progress never runs backwards and never passes the design size.
pub proof fn law_wire_progress_monotonic(a: u64, b: u64, overhead: u64, total: u64)
    requires
        a <= b,
    ensures
        spec_wire_progress(a, overhead, total) <= spec_wire_progress(b, overhead, total),
        spec_wire_progress(b, overhead, total) <= total,
        overhead + total <= u64::MAX ==> spec_wire_progress(
            (overhead + total) as u64,
            overhead,
            total,
        ) == total,
{
}

/// The display model of a Brother machine.
pub open spec fn spec_brother_model(model: Option<i64>) -> Seq<char> {
    match model {
        Some(code) => "Brother (model "@ + dec_signed(code as int) + ")"@,
        None => "Brother"@,
    }
}

/// What Brother's `/info` answer says of the machine at `ip`.
pub open spec fn is_brother_machine_info(raw: BrotherInfo, ip: NetAddr, r: MachineInfo) -> bool {
    &&& r.identity.manufacturer@ == "brother"@
    &&& r.identity.model@ == spec_brother_model(raw.model)
    &&& r.identity.name == raw.name
    &&& r.identity.firmware == raw.version
    &&& r.identity.serial == raw.serial
    &&& r.identity.ip == ip
    &&& r.capabilities.emb_width_tenth_mm == raw.features.embwidth
    &&& r.capabilities.emb_height_tenth_mm == raw.features.embheight
    &&& r.capabilities.needles == raw.features.needles
    &&& r.capabilities.max_file_bytes == raw.features.postsize
    &&& strings_view(r.capabilities.formats@) == spec_supported_formats()
}

/// The neutral identity and capabilities from `/info`.
pub fn brother_machine_info(raw: &BrotherInfo, ip: NetAddr) -> (r: MachineInfo)
    ensures
        is_brother_machine_info(*raw, ip, r),
{
    let mut model = String::new();
    match raw.model {
        Some(code) => {
            push_str(&mut model, "Brother (model ");
            push_i64(&mut model, code);
            push_str(&mut model, ")");
        },
        None => {
            push_str(&mut model, "Brother");
        },
    }
    MachineInfo {
        identity: MachineIdentity {
            manufacturer: MANUFACTURER.to_owned(),
            model,
            name: copy_opt_string(&raw.name),
            firmware: copy_opt_string(&raw.version),
            serial: copy_opt_string(&raw.serial),
            ip,
        },
        capabilities: MachineCapabilities {
            emb_width_tenth_mm: raw.features.embwidth,
            emb_height_tenth_mm: raw.features.embheight,
            needles: raw.features.needles,
            max_file_bytes: raw.features.postsize,
            formats: supported_formats(),
        },
    }
}

// ---------------------------------------------------------------------------
// The upload conversation

/// Where an upload conversation stands.
#[derive(Debug, Clone, Copy, PartialEq, Eq, Structural)]
pub enum UploadPhase {
    /// Waiting for `/info` (the hard size limit).
    AwaitInfo,
    /// Waiting for the status call (free memory, file list before).
    AwaitSession,
    /// Waiting for the design transmission to complete.
    AwaitSend,
    /// Waiting for the status call after the upload (the new file's name).
    AwaitAfter,
    Finished,
}

/// What the client must do next.
#[derive(Debug, PartialEq, Eq)]
pub enum UploadAction {
    /// `GET /info` (with retries).
    FetchInfo,
    /// The status call (with retries).
    FetchSession,
    /// Transmit the design (with at most one retry).
    SendDesign,
    /// The status call again, best effort.
    FetchSessionAfter,
    /// The upload's outcome.
    Finish(Result<UploadReceipt, MachineError>),
}

/// One upload of one design to one Brother machine. Every check happens
/// before the design is transmitted: its format, the machine's size limit,
/// then its free memory (a status call that doubles as the handshake the
/// official client performs before sending).
pub struct BrotherUpload {
    pub size: u64,
    pub phase: UploadPhase,
    /// The size limit `/info` reported, once known.
    pub limit: Option<u64>,
    /// The free memory the status call reported, once known.
    pub free: Option<u64>,
    /// The format check passed.
    pub format_ok: bool,
    /// Files in machine memory before the upload.
    pub before: Vec<String>,
}

impl BrotherUpload {
    /// Invariant: each phase is only reached once the checks before it
    /// passed.
    pub open spec fn wf(&self) -> bool {
        &&& (self.phase != UploadPhase::Finished ==> self.format_ok)
        &&& (self.phase == UploadPhase::AwaitSession || self.phase == UploadPhase::AwaitSend
            || self.phase == UploadPhase::AwaitAfter) ==> within(self.size, self.limit)
        &&& (self.phase == UploadPhase::AwaitSend || self.phase == UploadPhase::AwaitAfter)
            ==> within(self.size, self.free)
    }

    /// Begin: the format gate, then `/info`.
    pub fn start(filename: &str, size: u64) -> (r: (BrotherUpload, UploadAction))
        ensures
            r.0.wf(),
            r.0.size == size,
            spec_format_supported(filename@) ==> r.0.phase == UploadPhase::AwaitInfo && r.1
                == UploadAction::FetchInfo,
            !spec_format_supported(filename@) ==> r.0.phase == UploadPhase::Finished && (r.1 matches UploadAction::Finish(
                Err(MachineError::UnsupportedFormat { format, supported }),
            ) && format@ == spec_extension(filename@) && supported@ == "pes, phc, dst, phx"@),
    {
        match check_format(filename) {
            Ok(()) => (
                BrotherUpload {
                    size,
                    phase: UploadPhase::AwaitInfo,
                    limit: None,
                    free: None,
                    format_ok: true,
                    before: Vec::new(),
                },
                UploadAction::FetchInfo,
            ),
            Err(e) => (
                BrotherUpload {
                    size,
                    phase: UploadPhase::Finished,
                    limit: None,
                    free: None,
                    format_ok: false,
                    before: Vec::new(),
                },
                UploadAction::Finish(Err(e)),
            ),
        }
    }

    /// `/info` answered (or failed).
    pub fn on_info(&mut self, info: Result<BrotherInfo, MachineError>) -> (r: UploadAction)
        requires
            old(self).wf(),
            old(self).phase == UploadPhase::AwaitInfo,
        ensures
            final(self).wf(),
            final(self).size == old(self).size,
            match info {
                Err(e) => r == UploadAction::Finish(Err(e)) && final(self).phase
                    == UploadPhase::Finished,
                Ok(i) => if within(old(self).size, i.features.postsize) {
                    r == UploadAction::FetchSession && final(self).phase
                        == UploadPhase::AwaitSession
                } else {
                    r == UploadAction::Finish(
                        Err(
                            MachineError::FileTooLarge {
                                size: old(self).size,
                                limit: i.features.postsize->0,
                            },
                        ),
                    ) && final(self).phase == UploadPhase::Finished
                },
            },
    {
        match info {
            Err(e) => {
                self.phase = UploadPhase::Finished;
                UploadAction::Finish(Err(e))
            },
            Ok(i) => {
                let limit = i.features.postsize;
                match check_size_limit(self.size, limit) {
                    Ok(()) => {
                        self.limit = limit;
                        self.phase = UploadPhase::AwaitSession;
                        UploadAction::FetchSession
                    },
                    Err(e) => {
                        self.phase = UploadPhase::Finished;
                        UploadAction::Finish(Err(e))
                    },
                }
            },
        }
    }

    /// The status call before sending answered (or failed).
    pub fn on_session(&mut self, session: Result<SewingResponse, MachineError>) -> (r:
        UploadAction)
        requires
            old(self).wf(),
            old(self).phase == UploadPhase::AwaitSession,
        ensures
            final(self).wf(),
            final(self).size == old(self).size,
            match session {
                Err(e) => r == UploadAction::Finish(Err(e)) && final(self).phase
                    == UploadPhase::Finished,
                Ok(s) => if within(old(self).size, s.upload_freesize) {
                    r == UploadAction::SendDesign && final(self).phase == UploadPhase::AwaitSend
                        && final(self).before == s.files
                } else {
                    r == UploadAction::Finish(
                        Err(
                            MachineError::InsufficientStorage {
                                size: old(self).size,
                                free: s.upload_freesize->0,
                            },
                        ),
                    ) && final(self).phase == UploadPhase::Finished
                },
            },
            r == UploadAction::SendDesign ==> final(self).format_ok && within(
                final(self).size,
                final(self).limit,
            ) && within(final(self).size, final(self).free),
    {
        match session {
            Err(e) => {
                self.phase = UploadPhase::Finished;
                UploadAction::Finish(Err(e))
            },
            Ok(s) => {
                let free = s.upload_freesize;
                match check_free_memory(self.size, free) {
                    Ok(()) => {
                        self.free = free;
                        self.before = s.files;
                        self.phase = UploadPhase::AwaitSend;
                        UploadAction::SendDesign
                    },
                    Err(e) => {
                        self.phase = UploadPhase::Finished;
                        UploadAction::Finish(Err(e))
                    },
                }
            },
        }
    }

    /// The transmission finished (or failed).
    pub fn on_sent(&mut self, sent: Result<(), MachineError>) -> (r: UploadAction)
        requires
            old(self).wf(),
            old(self).phase == UploadPhase::AwaitSend,
        ensures
            final(self).wf(),
            final(self).size == old(self).size,
            final(self).before == old(self).before,
            match sent {
                Err(e) => r == UploadAction::Finish(Err(e)) && final(self).phase
                    == UploadPhase::Finished,
                Ok(()) => r == UploadAction::FetchSessionAfter && final(self).phase
                    == UploadPhase::AwaitAfter,
            },
    {
        match sent {
            Err(e) => {
                self.phase = UploadPhase::Finished;
                UploadAction::Finish(Err(e))
            },
            Ok(()) => {
                self.phase = UploadPhase::AwaitAfter;
                UploadAction::FetchSessionAfter
            },
        }
    }

    /// The status call after the upload answered (or failed): the upload
    /// succeeded either way; the machine-assigned name is reported when the
    /// new file list shows it.
    pub fn on_after(&mut self, after: Result<SewingResponse, MachineError>) -> (r: UploadAction)
        requires
            old(self).wf(),
            old(self).phase == UploadPhase::AwaitAfter,
        ensures
            final(self).wf(),
            final(self).phase == UploadPhase::Finished,
            r matches UploadAction::Finish(Ok(receipt)) && receipt.bytes_sent == old(self).size
                && match after {
                Ok(s) => match first_new_index(
                    strings_view(old(self).before@),
                    strings_view(s.files@),
                    0,
                ) {
                    Some(i) => receipt.stored_as matches Some(n) && n@ == s.files@[i]@,
                    None => receipt.stored_as is None,
                },
                Err(_) => receipt.stored_as is None,
            },
    {
        let stored_as = match &after {
            Ok(s) => new_file_name(&self.before, &s.files),
            Err(_) => None,
        };
        self.phase = UploadPhase::Finished;
        UploadAction::Finish(Ok(UploadReceipt { bytes_sent: self.size, stored_as }))
    }
}

/// A design is only ever transmitted after all three checks passed: any
/// conversation state that is about to send holds a supported format and a
/// size within the machine's limit and its free memory.
pub proof fn law_send_only_when_acceptable(u: BrotherUpload)
    requires
        u.wf(),
        u.phase == UploadPhase::AwaitSend,
    ensures
        u.format_ok,
        within(u.size, u.limit),
        within(u.size, u.free),
{
}

/// An upload is retried at most once: whatever the second attempt's
/// failure, the answer is to stop.
pub proof fn law_upload_retried_at_most_once(e: MachineError, failed_attempt: u32)
    requires
        failed_attempt >= 1,
    ensures
        spec_after_failure(failed_attempt, UPLOAD_RETRIES, e, false) == RetryDecision::Stop,
{
}

} // verus!
