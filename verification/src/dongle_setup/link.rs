//! The dongle's USB setup channel: line-delimited JSON over a CDC-ACM
//! serial port. Requests carry an `id` that the response echoes; lines
//! with an `event` field instead are progress notifications.
use crate::dongle_setup::setup::SetupError;
use crate::text::{chars_of, has_prefix, starts_with};
use vstd::prelude::*;

verus! {

/// Espressif's development vendor id, matching the firmware's descriptor.
pub const USB_VID: u16 = 0x303a;

/// Espressif's development product id, matching the firmware's descriptor.
pub const USB_PID: u16 = 0x4002;

/// A dongle plugged into this computer.
#[derive(Debug, Clone, PartialEq, Eq)]
pub struct DongleSummary {
    /// OS port path, e.g. `/dev/cu.usbmodem1101` or `COM5`.
    pub port: String,
    /// USB serial number: the dongle's MAC-derived serial.
    pub serial: Option<String>,
}

/// A serial port is a dongle's setup port: a USB port with the dongle's
/// vendor and product ids; on macOS only the callout node (`/dev/cu.*`),
/// not the `/dev/tty.*` twin the OS also lists.
pub open spec fn spec_is_setup_port(
    is_usb: bool,
    vid: u16,
    pid: u16,
    port: Seq<char>,
    on_macos: bool,
) -> bool {
    is_usb && vid == USB_VID && pid == USB_PID && (!on_macos || !has_prefix(port, "/dev/tty."@))
}

/// Executable [`spec_is_setup_port`].
pub fn is_setup_port(is_usb: bool, vid: u16, pid: u16, port: &str, on_macos: bool) -> (r: bool)
    ensures
        r == spec_is_setup_port(is_usb, vid, pid, port@, on_macos),
{
    if !(is_usb && vid == USB_VID && pid == USB_PID) {
        return false;
    }
    if !on_macos {
        return true;
    }
    let p = chars_of(port);
    let tty = chars_of("/dev/tty.");
    !starts_with(&p, &tty)
}

/// The line content before a newline at `pos`, without a trailing `\r`.
pub open spec fn line_content(buf: Seq<u8>, pos: int) -> Seq<u8> {
    if pos > 0 && buf[pos - 1] == 13u8 {
        buf.take(pos - 1)
    } else {
        buf.take(pos)
    }
}

/// Take one complete line out of the receive buffer. With no newline the
/// buffer is left as it is.
pub fn take_line(buf: &mut Vec<u8>) -> (r: Option<Vec<u8>>)
    ensures
        match r {
            Some(line) => exists|pos: int|
                0 <= pos < old(buf)@.len() && old(buf)@[pos] == 10u8 && (forall|j: int|
                    0 <= j < pos ==> old(buf)@[j] != 10u8) && line@ == line_content(old(buf)@, pos)
                    && final(buf)@ == old(buf)@.skip(pos + 1),
            None => (forall|j: int| 0 <= j < old(buf)@.len() ==> old(buf)@[j] != 10u8)
                && final(buf)@ == old(buf)@,
        },
{
    let mut pos: usize = 0;
    while pos < buf.len() && buf[pos] != 10u8
        invariant
            pos <= buf.len(),
            forall|j: int| 0 <= j < pos ==> buf@[j] != 10u8,
        decreases buf.len() - pos,
    {
        pos += 1;
    }
    if pos == buf.len() {
        return None;
    }
    let end = if pos > 0 && buf[pos - 1] == 13u8 {
        pos - 1
    } else {
        pos
    };
    let mut line: Vec<u8> = Vec::new();
    let mut k: usize = 0;
    while k < end
        invariant
            k <= end <= pos < buf.len(),
            line@ == buf@.take(k as int),
        decreases end - k,
    {
        line.push(buf[k]);
        assert(line@ =~= buf@.take(k + 1));
        k += 1;
    }
    let ghost old_buf = buf@;
    let mut rest: Vec<u8> = Vec::new();
    let mut t = pos + 1;
    while t < buf.len()
        invariant
            pos + 1 <= t <= buf.len(),
            buf@ == old_buf,
            rest@ == old_buf.subrange(pos + 1, t as int),
        decreases buf.len() - t,
    {
        rest.push(buf[t]);
        assert(rest@ =~= old_buf.subrange(pos + 1, t + 1));
        t += 1;
    }
    assert(rest@ =~= old_buf.skip(pos + 1));
    *buf = rest;
    Some(line)
}

/// The fields of one received line that the request loop reads (`parsed`
/// is false when the line is not JSON).
#[derive(Debug, Clone, PartialEq, Eq)]
pub struct ResponseLine {
    pub parsed: bool,
    pub has_event: bool,
    pub id: Option<u64>,
    pub ok: Option<bool>,
    pub error_code: Option<String>,
    pub error_message: Option<String>,
}

/// What the request loop does with a line.
#[derive(Debug, Clone, PartialEq, Eq)]
pub enum LineAction {
    /// Boot noise or a torn line: keep waiting.
    Skip,
    /// A progress event: hand it to the caller, keep waiting.
    Event,
    /// A response to an earlier, interrupted request: keep waiting.
    Stale,
    /// The response: success.
    Done,
    /// The response: the dongle's error.
    Failed(SetupError),
}

/// Interpret one line while waiting for the response to request `id`.
pub fn classify_line(line: &ResponseLine, id: u64) -> (r: LineAction)
    ensures
        !line.parsed ==> r == LineAction::Skip,
        line.parsed && line.has_event ==> r == LineAction::Event,
        line.parsed && !line.has_event && line.id != Some(id) ==> r == LineAction::Stale,
        line.parsed && !line.has_event && line.id == Some(id) && line.ok == Some(true) ==> r
            == LineAction::Done,
        line.parsed && !line.has_event && line.id == Some(id) && line.ok != Some(true) ==> (r matches LineAction::Failed(
            e,
        ) && e.code@ == match line.error_code {
            Some(c) => c@,
            None => "dongle_error"@,
        } && e.message@ == match line.error_message {
            Some(m) => m@,
            None => "the dongle rejected the request"@,
        }),
{
    if !line.parsed {
        return LineAction::Skip;
    }
    if line.has_event {
        return LineAction::Event;
    }
    match line.id {
        Some(i) => if i != id {
            return LineAction::Stale;
        },
        None => {
            return LineAction::Stale;
        },
    }
    if line.ok == Some(true) {
        return LineAction::Done;
    }
    let code = match &line.error_code {
        Some(c) => c.clone(),
        None => "dongle_error".to_owned(),
    };
    let message = match &line.error_message {
        Some(m) => m.clone(),
        None => "the dongle rejected the request".to_owned(),
    };
    LineAction::Failed(SetupError { code, message })
}

} // verus!
