//! One upload of one design to an EmberConnect dongle, as a conversation
//! the HTTP side drives: the card's free space is checked before any byte
//! is streamed; a refused token is replaced by pairing again and the design
//! sent once more; a failed attempt is retried at most once.
use crate::emberconnect::client::{
    check_card_space, is_api_error, stale_token_error, upload_answer, UploadAnswer, UPLOAD_RETRIES,
};
use crate::emberconnect::models::DongleInfo;
use crate::machine::error::MachineError;
use crate::machine::models::UploadReceipt;
use crate::machine::retry::{after_failure, spec_after_failure, RetryDecision};
use vstd::prelude::*;

verus! {

/// Where a dongle upload stands.
#[derive(Debug, Clone, Copy, PartialEq, Eq, Structural)]
pub enum DonglePhase {
    /// Waiting for `GET /api/info` (the card's free space).
    AwaitInfo,
    /// Waiting for the answer to `POST /api/upload`.
    AwaitReply,
    /// Waiting for the token to be forgotten and pairing to finish.
    AwaitRepair,
    Finished,
}

/// What the HTTP side must do next.
#[derive(Debug, PartialEq, Eq)]
pub enum DongleAction {
    /// Read the dongle's info (with the read retries).
    FetchInfo,
    /// Stream the design now.
    Send,
    /// Wait the retry delay, then stream the design again.
    SendAfterDelay,
    /// Forget the stored token and pair again.
    Repair,
    /// The upload's outcome.
    Finish(Result<UploadReceipt, MachineError>),
}

/// The dongle's answer to one `POST /api/upload`: the HTTP status, the code
/// of its error envelope (empty when the body is not one) and, on success,
/// the name it stored the design under.
#[derive(Debug, Clone, PartialEq, Eq)]
pub struct DongleReply {
    pub status: u16,
    pub error_code: String,
    pub stored_as: Option<String>,
}

/// One upload of `size` bytes to one dongle.
pub struct DongleUpload {
    pub size: u64,
    pub phase: DonglePhase,
    /// The card's free space, once the info answer showed that the design
    /// fits.
    pub free: Option<u64>,
    /// The attempt under way (0-based).
    pub attempt: u32,
}

/// `size` bytes fit in the free space `free` that was read.
pub open spec fn has_room(size: u64, free: Option<u64>) -> bool {
    free matches Some(f) && size <= f
}

/// What follows a failed attempt number `attempt` with error `e`: another
/// attempt after the delay when the retry policy allows one, else the
/// error is the outcome.
pub open spec fn after_failed_attempt(
    attempt: u32,
    e: MachineError,
    r: DongleAction,
    phase: DonglePhase,
    next_attempt: u32,
) -> bool {
    if spec_after_failure(attempt, UPLOAD_RETRIES, e, true) == RetryDecision::RetryAfterDelay {
        r == DongleAction::SendAfterDelay && phase == DonglePhase::AwaitReply && next_attempt
            == attempt + 1
    } else {
        r == DongleAction::Finish(Err(e)) && phase == DonglePhase::Finished
    }
}

impl DongleUpload {
    /// Invariant: a design is only ever in flight, or about to be sent
    /// again, once the card was seen to have room for it; attempts stay
    /// below the upload attempt count.
    pub open spec fn wf(&self) -> bool {
        &&& (self.phase == DonglePhase::AwaitReply || self.phase == DonglePhase::AwaitRepair)
            ==> has_room(self.size, self.free)
        &&& self.attempt < UPLOAD_RETRIES
    }

    /// Begin: read the card's free space first.
    pub fn start(size: u64) -> (r: (DongleUpload, DongleAction))
        ensures
            r.0.wf(),
            r.0.size == size,
            r.0.phase == DonglePhase::AwaitInfo,
            r.0.attempt == 0,
            r.1 == DongleAction::FetchInfo,
    {
        (DongleUpload { size, phase: DonglePhase::AwaitInfo, free: None, attempt: 0 }, DongleAction::FetchInfo)
    }

    /// The info answer (or its failure): stream only when the design fits.
    pub fn on_info(&mut self, info: Result<DongleInfo, MachineError>) -> (r: DongleAction)
        requires
            old(self).wf(),
            old(self).phase == DonglePhase::AwaitInfo,
        ensures
            final(self).wf(),
            final(self).size == old(self).size,
            final(self).attempt == old(self).attempt,
            match info {
                Err(e) => r == DongleAction::Finish(Err(e)) && final(self).phase
                    == DonglePhase::Finished,
                Ok(i) => if old(self).size <= i.storage.free_bytes {
                    r == DongleAction::Send && final(self).phase == DonglePhase::AwaitReply
                        && final(self).free == Some(i.storage.free_bytes)
                } else {
                    r == DongleAction::Finish(
                        Err(
                            MachineError::InsufficientStorage {
                                size: old(self).size,
                                free: i.storage.free_bytes,
                            },
                        ),
                    ) && final(self).phase == DonglePhase::Finished
                },
            },
    {
        match info {
            Err(e) => {
                self.phase = DonglePhase::Finished;
                DongleAction::Finish(Err(e))
            },
            Ok(i) => match check_card_space(self.size, &i) {
                Ok(()) => {
                    self.free = Some(i.storage.free_bytes);
                    self.phase = DonglePhase::AwaitReply;
                    DongleAction::Send
                },
                Err(e) => {
                    self.phase = DonglePhase::Finished;
                    DongleAction::Finish(Err(e))
                },
            },
        }
    }

    /// An attempt failed with `e`: retry once more or give up.
    fn fail_attempt(&mut self, e: MachineError) -> (r: DongleAction)
        requires
            old(self).wf(),
            old(self).phase == DonglePhase::AwaitReply || old(self).phase
                == DonglePhase::AwaitRepair,
        ensures
            final(self).wf(),
            final(self).size == old(self).size,
            final(self).free == old(self).free,
            after_failed_attempt(old(self).attempt, e, r, final(self).phase, final(self).attempt),
    {
        match after_failure(self.attempt, UPLOAD_RETRIES, &e, true) {
            RetryDecision::RetryAfterDelay => {
                self.attempt = self.attempt + 1;
                self.phase = DonglePhase::AwaitReply;
                DongleAction::SendAfterDelay
            },
            RetryDecision::Stop => {
                self.phase = DonglePhase::Finished;
                DongleAction::Finish(Err(e))
            },
        }
    }

    /// The dongle answered the upload (or the attempt failed before an
    /// answer came).
    pub fn on_reply(&mut self, reply: Result<DongleReply, MachineError>) -> (r: DongleAction)
        requires
            old(self).wf(),
            old(self).phase == DonglePhase::AwaitReply,
        ensures
            final(self).wf(),
            final(self).size == old(self).size,
            final(self).free == old(self).free,
            match reply {
                Err(e) => after_failed_attempt(
                    old(self).attempt,
                    e,
                    r,
                    final(self).phase,
                    final(self).attempt,
                ),
                Ok(rep) => if rep.status == 401 {
                    r == DongleAction::Repair && final(self).phase == DonglePhase::AwaitRepair
                        && final(self).attempt == old(self).attempt
                } else if 200 <= rep.status < 300 {
                    r == DongleAction::Finish(
                        Ok(UploadReceipt { bytes_sent: old(self).size, stored_as: rep.stored_as }),
                    ) && final(self).phase == DonglePhase::Finished
                } else {
                    exists|e: MachineError|
                        #![trigger is_api_error(rep.status, rep.error_code@, old(self).size, e)]
                        is_api_error(rep.status, rep.error_code@, old(self).size, e)
                            && after_failed_attempt(
                            old(self).attempt,
                            e,
                            r,
                            final(self).phase,
                            final(self).attempt,
                        )
                },
            },
    {
        match reply {
            Err(e) => self.fail_attempt(e),
            Ok(rep) => match upload_answer(rep.status, rep.error_code.as_str(), rep.stored_as, self.size) {
                UploadAnswer::Stored(receipt) => {
                    self.phase = DonglePhase::Finished;
                    DongleAction::Finish(Ok(receipt))
                },
                UploadAnswer::Repair => {
                    self.phase = DonglePhase::AwaitRepair;
                    DongleAction::Repair
                },
                UploadAnswer::Failed(e) => {
                    let ghost g = e;
                    let r = self.fail_attempt(e);
                    assert(is_api_error(rep.status, rep.error_code@, old(self).size, g));
                    r
                },
            },
        }
    }

    /// Pairing again finished (or failed). A fresh token fails the attempt
    /// with [`stale_token_error`], so the design is sent again with it when
    /// an attempt is left.
    pub fn on_repaired(&mut self, paired: Result<(), MachineError>) -> (r: DongleAction)
        requires
            old(self).wf(),
            old(self).phase == DonglePhase::AwaitRepair,
        ensures
            final(self).wf(),
            final(self).size == old(self).size,
            final(self).free == old(self).free,
            match paired {
                Err(e) => after_failed_attempt(
                    old(self).attempt,
                    e,
                    r,
                    final(self).phase,
                    final(self).attempt,
                ),
                Ok(()) => exists|e: MachineError|
                    #![trigger after_failed_attempt(old(self).attempt, e, r, final(self).phase, final(self).attempt)]
                    (e matches MachineError::Protocol(m) && m@
                        == "dongle token was stale; re-paired"@) && after_failed_attempt(
                        old(self).attempt,
                        e,
                        r,
                        final(self).phase,
                        final(self).attempt,
                    ),
            },
    {
        match paired {
            Err(e) => self.fail_attempt(e),
            Ok(()) => {
                let e = stale_token_error();
                let ghost g = e;
                let r = self.fail_attempt(e);
                assert(after_failed_attempt(old(self).attempt, g, r, self.phase, self.attempt));
                r
            },
        }
    }
}

/// No byte is streamed to a card without room: whenever the conversation
/// is about to stream the design (after `Send` or `SendAfterDelay`), the
/// free space it read holds the whole design.
pub proof fn law_dongle_streams_only_with_room(u: DongleUpload)
    requires
        u.wf(),
        u.phase == DonglePhase::AwaitReply,
    ensures
        u.free matches Some(f) && u.size <= f,
{
}

/// The design is streamed at most twice: the attempt under way is the
/// first or the second.
pub proof fn law_dongle_sends_at_most_twice(u: DongleUpload)
    requires
        u.wf(),
    ensures
        u.attempt <= 1,
{
}

} // verus!
