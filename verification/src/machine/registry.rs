//! Which installed backend owns the device at an address.
//!
//! Every backend is asked in turn whether it recognizes the device; the
//! first that does wins. If none does, the answer is "not a machine" when at
//! least one backend reached the device, else the last transport failure.
use crate::machine::error::MachineError;
use vstd::prelude::*;

verus! {

/// What one backend's probe said: `Ok(true)` it recognized the device,
/// `Ok(false)` the device answered but is not one of its machines,
/// `Err(e)` the probe failed.
pub type ProbeResult = Result<bool, MachineError>;

/// The search state after some declining or failing probes.
pub struct IdentifySearch {
    /// Some backend reached the device.
    pub any_answered: bool,
    /// The most recent probe failure.
    pub last_err: Option<MachineError>,
}

/// The search state after the given probe results, none of them a claim.
pub open spec fn spec_fold(results: Seq<ProbeResult>) -> (bool, Option<MachineError>)
    decreases results.len(),
{
    if results.len() == 0 {
        (false, None)
    } else {
        let (answered, last) = spec_fold(results.drop_last());
        match results.last() {
            Ok(_) => (true, last),
            Err(e) => (answered, Some(e)),
        }
    }
}

/// The verdict once every backend declined or failed: `Err(e)` when no
/// backend reached the device (with the last failure), else `Ok(())`:
/// the device is not a supported machine.
pub open spec fn spec_verdict(state: (bool, Option<MachineError>)) -> Result<(), MachineError> {
    match state {
        (false, Some(e)) => Err(e),
        _ => Ok(()),
    }
}

impl IdentifySearch {
    pub open spec fn view(&self) -> (bool, Option<MachineError>) {
        (self.any_answered, self.last_err)
    }

    /// Before any probe.
    pub fn new() -> (r: IdentifySearch)
        ensures
            r@ == spec_fold(Seq::<ProbeResult>::empty()),
    {
        IdentifySearch { any_answered: false, last_err: None }
    }

    /// Record one probe result. Returns `true` when this backend claimed
    /// the device: the search stops there.
    pub fn on_probe(&mut self, result: ProbeResult) -> (claimed: bool)
        ensures
            claimed == (result == Ok::<bool, MachineError>(true)),
            !claimed ==> forall|past: Seq<ProbeResult>|
                old(self)@ == spec_fold(past) ==> #[trigger] spec_fold(past.push(result))
                    == final(self)@,
    {
        match result {
            Ok(true) => true,
            Ok(false) => {
                self.any_answered = true;
                proof {
                    assert forall|past: Seq<ProbeResult>| old(self)@ == spec_fold(past) implies #[trigger] spec_fold(
                        past.push(result),
                    ) == self@ by {
                        assert(past.push(result).drop_last() =~= past);
                    }
                }
                false
            },
            Err(e) => {
                self.last_err = Some(e);
                proof {
                    assert forall|past: Seq<ProbeResult>| old(self)@ == spec_fold(past) implies #[trigger] spec_fold(
                        past.push(result),
                    ) == self@ by {
                        assert(past.push(result).drop_last() =~= past);
                    }
                }
                false
            },
        }
    }

    /// The verdict after every backend declined or failed.
    pub fn verdict(self) -> (r: Result<(), MachineError>)
        ensures
            r == spec_verdict(self@),
    {
        match (self.any_answered, self.last_err) {
            (false, Some(e)) => Err(e),
            _ => Ok(()),
        }
    }
}

/// Identify over the probe results of all backends, in order.
pub fn identify(results: &Vec<ProbeResult>) -> (r: Result<Option<usize>, MachineError>)
    ensures
        match r {
            Ok(Some(i)) => i < results@.len() && results@[i as int] == Ok::<bool, MachineError>(
                true,
            ) && forall|j: int| 0 <= j < i ==> results@[j] != Ok::<bool, MachineError>(true),
            Ok(None) => spec_verdict(spec_fold(results@)) == Ok::<(), MachineError>(())
                && forall|j: int| 0 <= j < results@.len() ==> results@[j] != Ok::<bool, MachineError>(
                true,
            ),
            Err(e) => spec_verdict(spec_fold(results@)) == Err::<(), MachineError>(e)
                && forall|j: int| 0 <= j < results@.len() ==> results@[j] != Ok::<bool, MachineError>(
                true,
            ),
        },
{
    let mut search = IdentifySearch::new();
    let mut i: usize = 0;
    while i < results.len()
        invariant
            i <= results.len(),
            search@ == spec_fold(results@.subrange(0, i as int)),
            forall|j: int| 0 <= j < i ==> results@[j] != Ok::<bool, MachineError>(true),
        decreases results.len() - i,
    {
        let r = match &results[i] {
            Ok(b) => Ok(*b),
            Err(e) => Err(e.duplicate()),
        };
        let claimed = search.on_probe(r);
        if claimed {
            return Ok(Some(i));
        }
        assert(results@.subrange(0, i as int).push(results@[i as int]) =~= results@.subrange(
            0,
            i + 1,
        ));
        i += 1;
    }
    assert(results@.subrange(0, results.len() as int) =~= results@);
    match search.verdict() {
        Ok(()) => Ok(None),
        Err(e) => Err(e),
    }
}

} // verus!
