//! The EmberConnect backend as the registry sees it: its identifier, and
//! which devices it claims when probing an address.
use crate::brother::models::opt_chars;
use crate::emberconnect::client::{
    dongle_machine_info, dongle_name_cuttable, is_dongle_machine_info, MANUFACTURER,
};
use crate::emberconnect::models::Health;
use crate::machine::error::MachineError;
use crate::machine::models::MachineInfo;
use crate::machine::net::NetAddr;
use vstd::prelude::*;

verus! {

/// The EmberConnect backend registered with the machine registry.
pub struct EmberConnectBackend;

impl EmberConnectBackend {
    /// The backend (it holds no state; each probe builds its own client).
    pub fn new() -> (r: EmberConnectBackend) {
        EmberConnectBackend
    }

    /// Backend identifier, `"emberconnect"`.
    pub fn manufacturer(&self) -> (r: &'static str)
        ensures
            r@ == "emberconnect"@,
    {
        MANUFACTURER
    }

    /// Decide a probe from the device's `/api/health` answer: a device is
    /// ours iff the health answer says `ok` with our name; a failed request
    /// stays an error.
    pub fn probe_verdict(&self, answer: Result<Health, MachineError>, ip: NetAddr) -> (r: Result<
        Option<MachineInfo>,
        MachineError,
    >)
        requires
            answer matches Ok(h) ==> (h.ok && h.name@ == "EmberConnect"@ ==> dongle_name_cuttable(
                h.device_name@,
                opt_chars(h.serial),
            )),
        ensures
            match answer {
                Ok(h) => if h.ok && h.name@ == "EmberConnect"@ {
                    r matches Ok(Some(info)) && is_dongle_machine_info(h, ip, info)
                } else {
                    r == Ok::<Option<MachineInfo>, MachineError>(None)
                },
                Err(e) => r == Err::<Option<MachineInfo>, MachineError>(e),
            },
    {
        match answer {
            Ok(h) => {
                if h.is_ember_connect() {
                    Ok(Some(dongle_machine_info(&h, ip)))
                } else {
                    Ok(None)
                }
            },
            Err(e) => Err(e),
        }
    }
}

} // verus!
