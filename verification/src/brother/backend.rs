//! The Brother backend as the registry sees it: its identifier, and which
//! devices it claims when probing an address.
use crate::brother::client::{brother_machine_info, is_brother_machine_info, MANUFACTURER};
use crate::brother::models::{has_api, BrotherInfo};
use crate::machine::error::MachineError;
use crate::machine::models::MachineInfo;
use crate::machine::net::NetAddr;
use vstd::prelude::*;

verus! {

/// The Brother backend registered with the machine registry.
pub struct BrotherBackend;

impl BrotherBackend {
    /// The backend (it holds no state; each probe builds its own client).
    pub fn new() -> (r: BrotherBackend) {
        BrotherBackend
    }

    /// Backend identifier, `"brother"`.
    pub fn manufacturer(&self) -> (r: &'static str)
        ensures
            r@ == "brother"@,
    {
        MANUFACTURER
    }

    /// Decide a probe from the machine's `/api/info` answer: a device is a
    /// Brother machine of ours iff it advertises the `pedxml` transfer API;
    /// a failed request stays an error.
    pub fn probe_verdict(&self, answer: Result<BrotherInfo, MachineError>, ip: NetAddr) -> (r:
        Result<Option<MachineInfo>, MachineError>)
        ensures
            match answer {
                Ok(raw) => if has_api(raw.apis@, "pedxml"@) {
                    r matches Ok(Some(info)) && is_brother_machine_info(raw, ip, info)
                } else {
                    r == Ok::<Option<MachineInfo>, MachineError>(None)
                },
                Err(e) => r == Err::<Option<MachineInfo>, MachineError>(e),
            },
    {
        match answer {
            Ok(raw) => {
                if raw.supports_pedxml() {
                    Ok(Some(brother_machine_info(&raw, ip)))
                } else {
                    Ok(None)
                }
            },
            Err(e) => Err(e),
        }
    }
}

} // verus!
