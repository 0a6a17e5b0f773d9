//! Outcomes of the setup commands.
use vstd::prelude::*;

verus! {

/// A setup failure: stable code + human message.
#[derive(Debug, Clone, PartialEq, Eq)]
pub struct SetupError {
    pub code: String,
    pub message: String,
}

impl SetupError {
    pub fn new(code: &str, message: &str) -> (r: SetupError)
        ensures
            r.code@ == code@,
            r.message@ == message@,
    {
        SetupError { code: code.to_owned(), message: message.to_owned() }
    }
}

/// What the wizard needs after a successful provision.
#[derive(Debug, Clone, PartialEq, Eq)]
pub struct ProvisionOutcome {
    pub ssid: String,
    pub ip: String,
    pub serial: Option<String>,
    /// Whether this bridge also minted and stored a LAN API token, so the
    /// dongle is ready to use once it is on the machine.
    pub paired: bool,
}

/// Firmware-update progress shown in the UI.
#[derive(Debug, Clone, Copy, PartialEq, Eq)]
pub struct UpdateProgress {
    pub written: u64,
    pub total: u64,
}

/// The fields of the dongle's answer to the USB `pair` command.
#[derive(Debug, Clone, PartialEq, Eq)]
pub struct PairAnswer {
    pub serial: Option<String>,
    pub token: Option<String>,
}

/// After provisioning, the bridge pairs over USB too. A pairing failure is
/// not a provisioning failure: the dongle is on the network either way.
/// Returns the outcome, and the (serial, token) to store when the answer
/// carried both.
pub fn provision_outcome(ssid: String, ip: String, pair: Option<PairAnswer>) -> (r: (
    ProvisionOutcome,
    Option<(String, String)>,
))
    ensures
        r.0.ssid == ssid,
        r.0.ip == ip,
        match pair {
            None => r.0.serial is None && !r.0.paired && r.1 is None,
            Some(p) => r.0.serial == p.serial && match (p.serial, p.token) {
                (Some(s), Some(t)) => r.0.paired && r.1 == Some((s, t)),
                _ => !r.0.paired && r.1 is None,
            },
        },
{
    match pair {
        None => (ProvisionOutcome { ssid, ip, serial: None, paired: false }, None),
        Some(p) => {
            let serial = crate::server::jobs::copy_opt_string(&p.serial);
            match (p.serial, p.token) {
                (Some(s), Some(t)) => (
                    ProvisionOutcome { ssid, ip, serial, paired: true },
                    Some((s, t)),
                ),
                _ => (ProvisionOutcome { ssid, ip, serial, paired: false }, None),
            }
        },
    }
}

/// The fields of one protocol line that the firmware-update loop reads.
#[derive(Debug, Clone, PartialEq, Eq)]
pub struct UpdateLine {
    /// `event`, when the line has one.
    pub event: Option<String>,
    pub written: Option<u64>,
    pub total: Option<u64>,
    /// `ok`, when the line has one (a final response).
    pub ok: Option<bool>,
    pub error_code: Option<String>,
    pub error_message: Option<String>,
}

/// What the update loop does with a line.
#[derive(Debug, Clone, PartialEq, Eq)]
pub enum UpdateStep {
    /// Report progress to the UI and keep reading.
    Progress(UpdateProgress),
    /// The dongle verified the image and will reboot.
    Done,
    /// The dongle refused the image.
    Failed(SetupError),
    /// Not for us; keep reading.
    Ignore,
}

/// Interpret one line received while an image streams: `update` events are
/// progress (totals default to the image size), a line with `ok: true`
/// ends the update, a line with any other `ok` is its error.
pub fn update_step(line: &UpdateLine, image_total: u64) -> (r: UpdateStep)
    ensures
        (line.event matches Some(e) && e@ == "update"@) ==> r == UpdateStep::Progress(
            UpdateProgress {
                written: match line.written {
                    Some(w) => w,
                    None => 0,
                },
                total: match line.total {
                    Some(t) => t,
                    None => image_total,
                },
            },
        ),
        !(line.event matches Some(e) && e@ == "update"@) ==> match line.ok {
            Some(true) => r == UpdateStep::Done,
            Some(false) => r matches UpdateStep::Failed(err) && err.code@ == match line.error_code {
                Some(c) => c@,
                None => "update_failed"@,
            } && err.message@ == match line.error_message {
                Some(m) => m@,
                None => "the dongle rejected the image"@,
            },
            None => r == UpdateStep::Ignore,
        },
{
    let is_update = match &line.event {
        Some(e) => crate::text::same_text(e.as_str(), "update"),
        None => false,
    };
    if is_update {
        return UpdateStep::Progress(
            UpdateProgress {
                written: match line.written {
                    Some(w) => w,
                    None => 0,
                },
                total: match line.total {
                    Some(t) => t,
                    None => image_total,
                },
            },
        );
    }
    match line.ok {
        Some(true) => UpdateStep::Done,
        Some(false) => {
            let code = match &line.error_code {
                Some(c) => c.clone(),
                None => "update_failed".to_owned(),
            };
            let message = match &line.error_message {
                Some(m) => m.clone(),
                None => "the dongle rejected the image".to_owned(),
            };
            UpdateStep::Failed(SetupError { code, message })
        },
        None => UpdateStep::Ignore,
    }
}

} // verus!
