//! The upload job table.
//!
//! Sending a design returns at once with a job id; a single background
//! worker performs uploads one at a time (embroidery machines handle exactly
//! one request at once). Clients poll a job's record for progress. This
//! module holds the records: their creation, state changes and retention.
use crate::machine::error::{spec_error_code, spec_error_message, MachineError};
use crate::machine::models::UploadReceipt;
use crate::machine::net::NetAddr;
use crate::text::{dec_digits, is_digit, lemma_dec_digits, push_str, push_u64, same_text};
use vstd::prelude::*;

verus! {

/// Where a job is in its life.
#[derive(Debug, Clone, Copy, PartialEq, Eq, Structural)]
pub enum JobState {
    Queued,
    Uploading,
    Done,
    Failed,
}

/// Publicly visible job record (everything the API returns).
#[derive(Debug, Clone, PartialEq, Eq)]
pub struct JobRecord {
    pub id: String,
    pub filename: String,
    pub ip: NetAddr,
    pub state: JobState,
    pub sent_bytes: u64,
    pub total_bytes: u64,
    /// Machine-assigned filename after a successful upload, when known.
    pub stored_as: Option<String>,
    /// Stable error code + message, present when `state == Failed`.
    pub error_code: Option<String>,
    pub error: Option<String>,
    pub created_at_ms: u64,
    pub finished_at_ms: Option<u64>,
}

/// Finished jobs kept for listing; older finished jobs are dropped.
pub const MAX_FINISHED_JOBS: usize = 100;

/// A job that will not change any more.
pub open spec fn is_finished(r: JobRecord) -> bool {
    r.state == JobState::Done || r.state == JobState::Failed
}

/// A job waiting or in flight.
pub open spec fn is_pending(r: JobRecord) -> bool {
    r.state == JobState::Queued || r.state == JobState::Uploading
}

/// Number of finished jobs in `s`.
pub open spec fn finished_count(s: Seq<JobRecord>) -> nat
    decreases s.len(),
{
    if s.len() == 0 {
        0
    } else {
        finished_count(s.drop_last()) + if is_finished(s.last()) {
            1nat
        } else {
            0nat
        }
    }
}

/// Number of pending jobs in `s`.
pub open spec fn pending_count_of(s: Seq<JobRecord>) -> nat
    decreases s.len(),
{
    if s.len() == 0 {
        0
    } else {
        pending_count_of(s.drop_last()) + if is_pending(s.last()) {
            1nat
        } else {
            0nat
        }
    }
}

/// `s` without its first `k` finished jobs (oldest first); all other
/// records keep their order.
pub open spec fn drop_oldest_finished(s: Seq<JobRecord>, k: nat) -> Seq<JobRecord>
    decreases s.len(),
{
    if s.len() == 0 {
        s
    } else if k > 0 && is_finished(s[0]) {
        drop_oldest_finished(s.drop_first(), (k - 1) as nat)
    } else {
        seq![s[0]] + drop_oldest_finished(s.drop_first(), k)
    }
}

/// The records after pruning: drop the oldest finished jobs beyond the
/// retention cap.
pub open spec fn spec_prune(s: Seq<JobRecord>) -> Seq<JobRecord> {
    if finished_count(s) <= MAX_FINISHED_JOBS {
        s
    } else {
        drop_oldest_finished(s, (finished_count(s) - MAX_FINISHED_JOBS) as nat)
    }
}

/// The id of the job created at `now_ms` with sequence number `counter`.
pub open spec fn spec_job_id(now_ms: u64, counter: u64) -> Seq<char> {
    "job-"@ + dec_digits(now_ms as nat) + seq!['-'] + dec_digits(counter as nat)
}

/// `r` carries an id issued with a sequence number below `counter`.
pub open spec fn issued_before(r: JobRecord, counter: u64) -> bool {
    exists|c: u64| c < counter && #[trigger] spec_job_id(r.created_at_ms, c) == r.id@
}

/// No two records share an id.
pub open spec fn ids_distinct(s: Seq<JobRecord>) -> bool {
    forall|i: int, j: int| #![trigger s[i], s[j]] 0 <= i < j < s.len() ==> s[i].id@ != s[j].id@
}

/// Index of the first record with the given id.
pub open spec fn index_of(s: Seq<JobRecord>, id: Seq<char>) -> Option<int>
    decreases s.len(),
{
    if s.len() == 0 {
        None
    } else if s.last().id@ == id && index_of(s.drop_last(), id) is None {
        Some(s.len() - 1)
    } else {
        index_of(s.drop_last(), id)
    }
}

/// A copy of an optional string.
pub fn copy_opt_string(o: &Option<String>) -> (r: Option<String>)
    ensures
        r == *o,
{
    match o {
        Some(s) => Some(s.clone()),
        None => None,
    }
}

impl JobRecord {
    /// A field-by-field copy.
    pub fn duplicate(&self) -> (r: JobRecord)
        ensures
            r == *self,
    {
        JobRecord {
            id: self.id.clone(),
            filename: self.filename.clone(),
            ip: self.ip,
            state: self.state,
            sent_bytes: self.sent_bytes,
            total_bytes: self.total_bytes,
            stored_as: copy_opt_string(&self.stored_as),
            error_code: copy_opt_string(&self.error_code),
            error: copy_opt_string(&self.error),
            created_at_ms: self.created_at_ms,
            finished_at_ms: self.finished_at_ms,
        }
    }
}

/// Index of the first record in `v` with the given id.
fn find_index(v: &Vec<JobRecord>, id: &str) -> (r: Option<usize>)
    ensures
        match r {
            Some(i) => index_of(v@, id@) == Some(i as int) && i < v.len(),
            None => index_of(v@, id@) is None,
        },
{
    let mut i: usize = 0;
    while i < v.len()
        invariant
            i <= v.len(),
            index_of(v@.subrange(0, i as int), id@) is None,
        decreases v.len() - i,
    {
        let hit = same_text(v[i].id.as_str(), id);
        proof {
            let pre = v@.subrange(0, i as int);
            let post = v@.subrange(0, i + 1);
            assert(post.drop_last() =~= pre);
        }
        if hit {
            proof {
                lemma_index_of_prefix(v@, (i + 1) as nat, id@);
            }
            return Some(i);
        }
        i += 1;
    }
    assert(v@.subrange(0, v.len() as int) =~= v@);
    None
}

/// A first match in a prefix is the first match of the whole sequence.
proof fn lemma_index_of_prefix(s: Seq<JobRecord>, n: nat, id: Seq<char>)
    requires
        n <= s.len(),
        index_of(s.subrange(0, n as int), id) is Some,
    ensures
        index_of(s, id) == index_of(s.subrange(0, n as int), id),
    decreases s.len() - n,
{
    if n < s.len() {
        let pre = s.subrange(0, n as int);
        let next = s.subrange(0, n + 1int);
        assert(next.drop_last() =~= pre);
        lemma_index_of_prefix(s, n + 1, id);
    } else {
        assert(s.subrange(0, n as int) =~= s);
    }
}

/// All upload jobs the bridge knows about, in creation order.
pub struct JobQueue {
    pub records: Vec<JobRecord>,
    /// Sequence number for the next job id.
    pub counter: u64,
}

/// Every record holds an id issued under `counter`.
pub open spec fn all_issued_before(s: Seq<JobRecord>, counter: u64) -> bool {
    forall|i: int| 0 <= i < s.len() ==> issued_before(#[trigger] s[i], counter)
}

/// Every record holds an id issued under `counter`, and no two records
/// share an id.
pub open spec fn records_wf(s: Seq<JobRecord>, counter: u64) -> bool {
    &&& all_issued_before(s, counter)
    &&& ids_distinct(s)
}

impl JobQueue {
    /// Every record holds an id issued under the current counter, and no
    /// two records share an id.
    pub open spec fn wf(&self) -> bool {
        records_wf(self.records@, self.counter)
    }
}

/// The new record `enqueue` creates.
pub open spec fn spec_new_record(
    id: Seq<char>,
    filename: Seq<char>,
    ip: NetAddr,
    total_bytes: u64,
    now_ms: u64,
    r: JobRecord,
) -> bool {
    &&& r.id@ == id
    &&& r.filename@ == filename
    &&& r.ip == ip
    &&& r.state == JobState::Queued
    &&& r.sent_bytes == 0
    &&& r.total_bytes == total_bytes
    &&& r.stored_as is None && r.error_code is None && r.error is None
    &&& r.created_at_ms == now_ms
    &&& r.finished_at_ms is None
}

impl JobQueue {
    /// An empty table.
    pub fn new() -> (r: JobQueue)
        ensures
            r.records@.len() == 0,
            r.counter == 0,
            r.wf(),
    {
        JobQueue { records: Vec::new(), counter: 0 }
    }

    /// Drop the oldest finished jobs beyond the retention cap.
    pub fn prune(&mut self)
        ensures
            final(self).records@ == spec_prune(old(self).records@),
            final(self).counter == old(self).counter,
            old(self).wf() ==> final(self).wf(),
    {
        proof {
            if old(self).wf() {
                lemma_prune_keeps_wf(old(self).records@, old(self).counter);
            }
        }
        let mut finished: usize = 0;
        let mut i: usize = 0;
        while i < self.records.len()
            invariant
                i <= self.records.len(),
                finished == finished_count(self.records@.subrange(0, i as int)),
                finished <= i,
            decreases self.records.len() - i,
        {
            let st = self.records[i].state;
            proof {
                assert(self.records@.subrange(0, i + 1).drop_last() =~= self.records@.subrange(
                    0,
                    i as int,
                ));
            }
            if st == JobState::Done || st == JobState::Failed {
                finished += 1;
            }
            i += 1;
        }
        assert(self.records@.subrange(0, self.records.len() as int) =~= self.records@);
        if finished <= MAX_FINISHED_JOBS {
            return;
        }
        let ghost all = self.records@;
        let ghost k = (finished - MAX_FINISHED_JOBS) as nat;
        let mut to_remove = finished - MAX_FINISHED_JOBS;
        let mut old: Vec<JobRecord> = Vec::new();
        std::mem::swap(&mut old, &mut self.records);
        let mut kept: Vec<JobRecord> = Vec::new();
        assert(old@.subrange(0, old.len() as int) =~= old@);
        while old.len() > 0
            invariant
                kept@ + drop_oldest_finished(old@, to_remove as nat) == drop_oldest_finished(
                    all,
                    k,
                ),
            decreases old.len(),
        {
            let r = old.remove(0);
            let ghost rest = old@;
            proof {
                assert(seq![r] + rest =~= old@.insert(0, r));
            }
            let fin = r.state == JobState::Done || r.state == JobState::Failed;
            if to_remove > 0 && fin {
                to_remove -= 1;
            } else {
                let ghost before = kept@;
                kept.push(r);
                assert(before + (seq![r] + drop_oldest_finished(rest, to_remove as nat))
                    =~= kept@ + drop_oldest_finished(rest, to_remove as nat));
            }
        }
        assert(kept@ + Seq::<JobRecord>::empty() =~= kept@);
        self.records = kept;
    }

    /// Register a new queued job created at `now_ms` and return its record.
    pub fn enqueue(&mut self, ip: NetAddr, filename: String, total_bytes: u64, now_ms: u64) -> (r:
        JobRecord)
        ensures
            spec_new_record(
                spec_job_id(now_ms, old(self).counter),
                filename@,
                ip,
                total_bytes,
                now_ms,
                r,
            ),
            final(self).records@ == spec_prune(old(self).records@.push(r)),
            final(self).counter == old(self).counter.wrapping_add(1),
            old(self).wf() ==> forall|i: int|
                0 <= i < old(self).records@.len() ==> #[trigger] old(self).records@[i].id@ != r.id@,
            old(self).wf() && old(self).counter < u64::MAX ==> final(self).wf(),
            final(self).records@.len() > 0,
            final(self).records@.last() == r,
            old(self).wf() ==> index_of(final(self).records@, r.id@) == Some(
                (final(self).records@.len() - 1) as int,
            ),
            pending_count_of(final(self).records@) == pending_count_of(old(self).records@) + 1,
    {
        let mut id = String::new();
        push_str(&mut id, "job-");
        push_u64(&mut id, now_ms);
        push_str(&mut id, "-");
        push_u64(&mut id, self.counter);
        proof {
            reveal_strlit("-");
            assert(id@ =~= spec_job_id(now_ms, old(self).counter));
        }
        self.counter = self.counter.wrapping_add(1);
        let record = JobRecord {
            id,
            filename,
            ip,
            state: JobState::Queued,
            sent_bytes: 0,
            total_bytes,
            stored_as: None,
            error_code: None,
            error: None,
            created_at_ms: now_ms,
            finished_at_ms: None,
        };
        let out = record.duplicate();
        self.records.push(record);
        proof {
            let before = old(self).records@;
            let after = self.records@;
            let c = old(self).counter;
            assert(after.drop_last() =~= before);
            if old(self).wf() {
                assert forall|i: int| 0 <= i < before.len() implies #[trigger] before[i].id@
                    != out.id@ by {
                    assert(issued_before(before[i], c));
                    let ci = choose|ci: u64|
                        ci < c && #[trigger] spec_job_id(before[i].created_at_ms, ci)
                            == before[i].id@;
                    law_job_id_is_injective(before[i].created_at_ms, ci, now_ms, c);
                }
                assert(ids_distinct(after)) by {
                    assert forall|a: int, b: int| #![trigger after[a], after[b]] 0 <= a < b
                        < after.len() implies after[a].id@ != after[b].id@ by {
                        assert(after[a] == before[a]);
                        if b < before.len() {
                            assert(after[b] == before[b]);
                            assert(before[a].id@ != before[b].id@);
                        }
                    }
                }
                if c < u64::MAX {
                    assert forall|i: int| 0 <= i < after.len() implies issued_before(
                        #[trigger] after[i],
                        self.counter,
                    ) by {
                        if i < before.len() {
                            assert(after[i] == before[i]);
                            assert(issued_before(before[i], c));
                            let ci = choose|ci: u64|
                                ci < c && #[trigger] spec_job_id(before[i].created_at_ms, ci)
                                    == before[i].id@;
                            assert(ci < self.counter);
                            assert(spec_job_id(after[i].created_at_ms, ci) == after[i].id@);
                        } else {
                            assert(after[i] == out);
                            assert(c < self.counter);
                            assert(spec_job_id(after[i].created_at_ms, c) == after[i].id@);
                        }
                    }
                }
                lemma_prune_keeps_wf(after, self.counter);
            }
            lemma_pending_push(before, out);
            law_prune_keeps_pending_and_caps_finished(after);
            if finished_count(after) > MAX_FINISHED_JOBS {
                lemma_drop_keeps_last_unfinished(
                    after,
                    (finished_count(after) - MAX_FINISHED_JOBS) as nat,
                );
            }
            if old(self).wf() {
                lemma_index_of_last(spec_prune(after));
            }
        }
        self.prune();
        out
    }

    /// The record with this id, if known.
    pub fn get(&self, id: &str) -> (r: Option<JobRecord>)
        ensures
            match index_of(self.records@, id@) {
                Some(i) => r == Some(self.records@[i]),
                None => r is None,
            },
    {
        match find_index(&self.records, id) {
            Some(i) => Some(self.records[i].duplicate()),
            None => None,
        }
    }

    /// All known jobs, newest first.
    pub fn list(&self) -> (r: Vec<JobRecord>)
        ensures
            r@ == self.records@.reverse(),
    {
        let mut out: Vec<JobRecord> = Vec::new();
        let mut i = self.records.len();
        while i > 0
            invariant
                i <= self.records.len(),
                out@ == self.records@.subrange(i as int, self.records.len() as int).reverse(),
            decreases i,
        {
            i -= 1;
            out.push(self.records[i].duplicate());
            assert(self.records@.subrange(i as int, self.records.len() as int).reverse()
                =~= self.records@.subrange(i + 1, self.records.len() as int).reverse().push(
                self.records@[i as int],
            ));
        }
        assert(self.records@.subrange(0, self.records.len() as int) =~= self.records@);
        out
    }

    /// Number of jobs waiting or in flight.
    pub fn pending_count(&self) -> (r: usize)
        ensures
            r == pending_count_of(self.records@),
    {
        let mut n: usize = 0;
        let mut i: usize = 0;
        while i < self.records.len()
            invariant
                i <= self.records.len(),
                n == pending_count_of(self.records@.subrange(0, i as int)),
                n <= i,
            decreases self.records.len() - i,
        {
            let st = self.records[i].state;
            proof {
                assert(self.records@.subrange(0, i + 1).drop_last() =~= self.records@.subrange(
                    0,
                    i as int,
                ));
            }
            if st == JobState::Queued || st == JobState::Uploading {
                n += 1;
            }
            i += 1;
        }
        assert(self.records@.subrange(0, self.records.len() as int) =~= self.records@);
        n
    }

    /// The worker picked the job up.
    pub fn mark_uploading(&mut self, id: &str)
        ensures
            final(self).counter == old(self).counter,
            old(self).wf() ==> final(self).wf(),
            match index_of(old(self).records@, id@) {
                Some(i) => final(self).records@ == old(self).records@.update(
                    i,
                    JobRecord { state: JobState::Uploading, ..old(self).records@[i] },
                ),
                None => final(self).records@ == old(self).records@,
            },
    {
        if let Some(i) = find_index(&self.records, id) {
            let mut r = self.records.remove(i);
            r.state = JobState::Uploading;
            self.records.insert(i, r);
            proof {
                if old(self).wf() {
                    lemma_update_keeps_wf(old(self).records@, old(self).counter, i as int, r);
                }
            }
            assert(self.records@ =~= old(self).records@.update(
                i as int,
                JobRecord { state: JobState::Uploading, ..old(self).records@[i as int] },
            ));
        }
    }

    /// Bytes handed to the machine so far.
    pub fn record_progress(&mut self, id: &str, sent_bytes: u64, total_bytes: u64)
        ensures
            final(self).counter == old(self).counter,
            old(self).wf() ==> final(self).wf(),
            match index_of(old(self).records@, id@) {
                Some(i) => final(self).records@ == old(self).records@.update(
                    i,
                    JobRecord { sent_bytes, total_bytes, ..old(self).records@[i] },
                ),
                None => final(self).records@ == old(self).records@,
            },
    {
        if let Some(i) = find_index(&self.records, id) {
            let mut r = self.records.remove(i);
            r.sent_bytes = sent_bytes;
            r.total_bytes = total_bytes;
            self.records.insert(i, r);
            proof {
                if old(self).wf() {
                    lemma_update_keeps_wf(old(self).records@, old(self).counter, i as int, r);
                }
            }
            assert(self.records@ =~= old(self).records@.update(
                i as int,
                JobRecord { sent_bytes, total_bytes, ..old(self).records@[i as int] },
            ));
        }
    }

    /// The upload succeeded.
    pub fn mark_done(&mut self, id: &str, bytes_sent: u64, stored_as: Option<String>, now_ms: u64)
        ensures
            final(self).counter == old(self).counter,
            old(self).wf() ==> final(self).wf(),
            match index_of(old(self).records@, id@) {
                Some(i) => final(self).records@ == old(self).records@.update(
                    i,
                    JobRecord {
                        state: JobState::Done,
                        sent_bytes: bytes_sent,
                        stored_as: stored_as,
                        finished_at_ms: Some(now_ms),
                        ..old(self).records@[i]
                    },
                ),
                None => final(self).records@ == old(self).records@,
            },
    {
        if let Some(i) = find_index(&self.records, id) {
            let mut r = self.records.remove(i);
            r.state = JobState::Done;
            r.sent_bytes = bytes_sent;
            r.stored_as = stored_as;
            r.finished_at_ms = Some(now_ms);
            self.records.insert(i, r);
            proof {
                if old(self).wf() {
                    lemma_update_keeps_wf(old(self).records@, old(self).counter, i as int, r);
                }
            }
            assert(self.records@ =~= old(self).records@.update(
                i as int,
                JobRecord {
                    state: JobState::Done,
                    sent_bytes: bytes_sent,
                    stored_as: stored_as,
                    finished_at_ms: Some(now_ms),
                    ..old(self).records@[i as int]
                },
            ));
        }
    }

    /// The upload failed with a stable error code and a message.
    pub fn mark_failed(&mut self, id: &str, code: String, message: String, now_ms: u64)
        ensures
            final(self).counter == old(self).counter,
            old(self).wf() ==> final(self).wf(),
            match index_of(old(self).records@, id@) {
                Some(i) => final(self).records@ == old(self).records@.update(
                    i,
                    JobRecord {
                        state: JobState::Failed,
                        error_code: Some(code),
                        error: Some(message),
                        finished_at_ms: Some(now_ms),
                        ..old(self).records@[i]
                    },
                ),
                None => final(self).records@ == old(self).records@,
            },
    {
        if let Some(i) = find_index(&self.records, id) {
            let mut r = self.records.remove(i);
            r.state = JobState::Failed;
            r.error_code = Some(code);
            r.error = Some(message);
            r.finished_at_ms = Some(now_ms);
            self.records.insert(i, r);
            proof {
                if old(self).wf() {
                    lemma_update_keeps_wf(old(self).records@, old(self).counter, i as int, r);
                }
            }
            assert(self.records@ =~= old(self).records@.update(
                i as int,
                JobRecord {
                    state: JobState::Failed,
                    error_code: Some(code),
                    error: Some(message),
                    finished_at_ms: Some(now_ms),
                    ..old(self).records@[i as int]
                },
            ));
        }
    }
}


impl JobQueue {
    /// Record how the machine answered the upload: done with the receipt's
    /// byte count and stored name, or failed with the error's stable code
    /// and message.
    pub fn settle(&mut self, id: &str, outcome: Result<UploadReceipt, MachineError>, now_ms: u64)
        ensures
            final(self).counter == old(self).counter,
            old(self).wf() ==> final(self).wf(),
            match index_of(old(self).records@, id@) {
                None => final(self).records@ == old(self).records@,
                Some(i) => match outcome {
                    Ok(receipt) => final(self).records@ == old(self).records@.update(
                        i,
                        JobRecord {
                            state: JobState::Done,
                            sent_bytes: receipt.bytes_sent,
                            stored_as: receipt.stored_as,
                            finished_at_ms: Some(now_ms),
                            ..old(self).records@[i]
                        },
                    ),
                    Err(e) => exists|code: String, message: String|
                        #![trigger code@, message@]
                        {
                            &&& code@ == spec_error_code(e)
                            &&& message@ == spec_error_message(e)
                            &&& final(self).records@ == old(self).records@.update(
                                i,
                                JobRecord {
                                    state: JobState::Failed,
                                    error_code: Some(code),
                                    error: Some(message),
                                    finished_at_ms: Some(now_ms),
                                    ..old(self).records@[i]
                                },
                            )
                        },
                },
            },
    {
        match outcome {
            Ok(receipt) => self.mark_done(id, receipt.bytes_sent, receipt.stored_as, now_ms),
            Err(e) => {
                let code = e.code().to_owned();
                let message = e.message();
                let ghost c = code;
                let ghost m = message;
                self.mark_failed(id, code, message, now_ms);
                proof {
                    if let Some(i) = index_of(old(self).records@, id@) {
                        assert(self.records@ == old(self).records@.update(
                            i,
                            JobRecord {
                                state: JobState::Failed,
                                error_code: Some(c),
                                error: Some(m),
                                finished_at_ms: Some(now_ms),
                                ..old(self).records@[i]
                            },
                        ));
                    }
                }
            },
        }
    }
}


// ---------------------------------------------------------------------------
// Laws

/// The counts add up over concatenation.
proof fn lemma_counts_concat(a: Seq<JobRecord>, b: Seq<JobRecord>)
    ensures
        finished_count(a + b) == finished_count(a) + finished_count(b),
        pending_count_of(a + b) == pending_count_of(a) + pending_count_of(b),
    decreases b.len(),
{
    if b.len() == 0 {
        assert(a + b =~= a);
    } else {
        lemma_counts_concat(a, b.drop_last());
        assert((a + b).drop_last() =~= a + b.drop_last());
    }
}

/// Counting from the front.
proof fn lemma_counts_front(s: Seq<JobRecord>)
    requires
        s.len() > 0,
    ensures
        finished_count(s) == (if is_finished(s[0]) {
            1nat
        } else {
            0nat
        }) + finished_count(s.drop_first()),
        pending_count_of(s) == (if is_pending(s[0]) {
            1nat
        } else {
            0nat
        }) + pending_count_of(s.drop_first()),
{
    let one = seq![s[0]];
    assert(s =~= one + s.drop_first());
    lemma_counts_concat(one, s.drop_first());
    assert(one.drop_last() =~= Seq::<JobRecord>::empty());
    assert(one.last() == s[0]);
    assert(finished_count(one) == finished_count(one.drop_last()) + (if is_finished(s[0]) {
        1nat
    } else {
        0nat
    }));
    assert(pending_count_of(one) == pending_count_of(one.drop_last()) + (if is_pending(s[0]) {
        1nat
    } else {
        0nat
    }));
}

/// Dropping finished jobs keeps every pending job and removes exactly
/// `min(k, finished)` finished ones.
proof fn lemma_drop_oldest_finished(s: Seq<JobRecord>, k: nat)
    ensures
        pending_count_of(drop_oldest_finished(s, k)) == pending_count_of(s),
        finished_count(drop_oldest_finished(s, k)) == finished_count(s) - (if k
            <= finished_count(s) {
            k
        } else {
            finished_count(s)
        }),
    decreases s.len(),
{
    if s.len() > 0 {
        lemma_counts_front(s);
        if k > 0 && is_finished(s[0]) {
            lemma_drop_oldest_finished(s.drop_first(), (k - 1) as nat);
        } else {
            lemma_drop_oldest_finished(s.drop_first(), k);
            let rest = drop_oldest_finished(s.drop_first(), k);
            let one = seq![s[0]];
            lemma_counts_concat(one, rest);
            lemma_counts_front(one + s.drop_first());
            assert(one + s.drop_first() =~= s);
            assert((one + rest).drop_first() =~= rest);
            lemma_counts_front(one + rest);
        }
    }
}

/// Pruning never drops a waiting or in-flight job, and keeps at most
/// `MAX_FINISHED_JOBS` finished ones (all of them if there are no more).
pub proof fn law_prune_keeps_pending_and_caps_finished(s: Seq<JobRecord>)
    ensures
        pending_count_of(spec_prune(s)) == pending_count_of(s),
        finished_count(spec_prune(s)) == if finished_count(s) <= MAX_FINISHED_JOBS {
            finished_count(s)
        } else {
            MAX_FINISHED_JOBS as nat
        },
{
    if finished_count(s) > MAX_FINISHED_JOBS {
        lemma_drop_oldest_finished(s, (finished_count(s) - MAX_FINISHED_JOBS) as nat);
    }
}

/// Pruning only drops records: it never makes the list longer, and every
/// record it keeps was in the old list.
pub proof fn law_prune_is_a_subsequence(s: Seq<JobRecord>, k: nat)
    ensures
        drop_oldest_finished(s, k).len() <= s.len(),
        forall|r: JobRecord| #[trigger] drop_oldest_finished(s, k).contains(r) ==> s.contains(r),
    decreases s.len(),
{
    if s.len() > 0 {
        if k > 0 && is_finished(s[0]) {
            law_prune_is_a_subsequence(s.drop_first(), (k - 1) as nat);
            assert forall|r: JobRecord| #[trigger]
                drop_oldest_finished(s, k).contains(r) implies s.contains(r) by {
                let j = choose|j: int|
                    0 <= j < drop_oldest_finished(s, k).len() && drop_oldest_finished(s, k)[j] == r;
                assert(s.drop_first().contains(r));
                let m = choose|m: int| 0 <= m < s.drop_first().len() && s.drop_first()[m] == r;
                assert(s[m + 1] == r);
            }
        } else {
            law_prune_is_a_subsequence(s.drop_first(), k);
            let rest = drop_oldest_finished(s.drop_first(), k);
            assert forall|r: JobRecord| #[trigger]
                drop_oldest_finished(s, k).contains(r) implies s.contains(r) by {
                let j = choose|j: int|
                    0 <= j < drop_oldest_finished(s, k).len() && drop_oldest_finished(s, k)[j] == r;
                if j == 0 {
                    assert(s[0] == r);
                } else {
                    assert(rest[j - 1] == r);
                    assert(rest.contains(r));
                    let m = choose|m: int| 0 <= m < s.drop_first().len() && s.drop_first()[m] == r;
                    assert(s[m + 1] == r);
                }
            }
        }
    }
}

/// A job id determines the creation time and the sequence number it was
/// made from: jobs with different sequence numbers never share an id.
pub proof fn law_job_id_is_injective(t1: u64, c1: u64, t2: u64, c2: u64)
    ensures
        spec_job_id(t1, c1) == spec_job_id(t2, c2) ==> t1 == t2 && c1 == c2,
{
    if spec_job_id(t1, c1) == spec_job_id(t2, c2) {
        reveal_strlit("job-");
        let a1 = dec_digits(t1 as nat);
        let b1 = dec_digits(c1 as nat);
        let a2 = dec_digits(t2 as nat);
        let b2 = dec_digits(c2 as nat);
        lemma_dec_digits(t1 as nat);
        lemma_dec_digits(c1 as nat);
        lemma_dec_digits(t2 as nat);
        lemma_dec_digits(c2 as nat);
        let x = spec_job_id(t1, c1);
        let y = spec_job_id(t2, c2);
        assert(x == "job-"@ + a1 + seq!['-'] + b1);
        assert(y == "job-"@ + a2 + seq!['-'] + b2);
        assert('-' as u32 == 45);
        if a1.len() < a2.len() {
            assert(x[4 + a1.len() as int] == '-');
            assert(y[4 + a1.len() as int] == a2[a1.len() as int]);
            assert(is_digit(a2[a1.len() as int]));
        }
        if a2.len() < a1.len() {
            assert(y[4 + a2.len() as int] == '-');
            assert(x[4 + a2.len() as int] == a1[a2.len() as int]);
            assert(is_digit(a1[a2.len() as int]));
        }
        assert(a1.len() == a2.len());
        assert forall|k: int| 0 <= k < a1.len() implies a1[k] == a2[k] by {
            assert(x[4 + k] == a1[k]);
            assert(y[4 + k] == a2[k]);
        }
        assert(a1 =~= a2);
        assert(b1.len() == b2.len());
        assert forall|k: int| 0 <= k < b1.len() implies b1[k] == b2[k] by {
            assert(x[5 + a1.len() + k] == b1[k]);
            assert(y[5 + a2.len() + k] == b2[k]);
        }
        assert(b1 =~= b2);
    }
}

/// The records after the first all satisfy what the whole sequence does.
proof fn lemma_wf_tail(s: Seq<JobRecord>, counter: u64)
    requires
        s.len() > 0,
    ensures
        all_issued_before(s, counter) ==> all_issued_before(s.drop_first(), counter),
        ids_distinct(s) ==> ids_distinct(s.drop_first()),
{
    let t = s.drop_first();
    if all_issued_before(s, counter) {
        assert forall|i: int| 0 <= i < t.len() implies issued_before(#[trigger] t[i], counter) by {
            assert(t[i] == s[i + 1]);
        }
    }
    if ids_distinct(s) {
        assert forall|i: int, j: int| #![trigger t[i], t[j]] 0 <= i < j < t.len() implies t[i].id@
            != t[j].id@ by {
            assert(t[i] == s[i + 1] && t[j] == s[j + 1]);
        }
    }
}

/// Dropping finished jobs keeps the records well formed.
proof fn lemma_drop_keeps_wf(s: Seq<JobRecord>, k: nat, counter: u64)
    ensures
        all_issued_before(s, counter) ==> all_issued_before(drop_oldest_finished(s, k), counter),
        ids_distinct(s) ==> ids_distinct(drop_oldest_finished(s, k)),
    decreases s.len(),
{
    if s.len() > 0 {
        let t = s.drop_first();
        lemma_wf_tail(s, counter);
        if k > 0 && is_finished(s[0]) {
            lemma_drop_keeps_wf(t, (k - 1) as nat, counter);
        } else {
            lemma_drop_keeps_wf(t, k, counter);
            law_prune_is_a_subsequence(t, k);
            let rest = drop_oldest_finished(t, k);
            let out = drop_oldest_finished(s, k);
            assert(out == seq![s[0]] + rest);
            if all_issued_before(s, counter) {
                assert forall|i: int| 0 <= i < out.len() implies issued_before(
                    #[trigger] out[i],
                    counter,
                ) by {
                    if i > 0 {
                        assert(out[i] == rest[i - 1]);
                    }
                }
            }
            if ids_distinct(s) {
            assert forall|i: int, j: int| #![trigger out[i], out[j]] 0 <= i < j < out.len() implies out[i].id@
                != out[j].id@ by {
                assert(out[j] == rest[j - 1]);
                if i == 0 {
                    assert(rest.contains(rest[j - 1]));
                    assert(t.contains(rest[j - 1]));
                    let m = choose|m: int| 0 <= m < t.len() && t[m] == rest[j - 1];
                    assert(s[m + 1] == t[m]);
                } else {
                    assert(out[i] == rest[i - 1]);
                }
            }
            }
        }
    }
}

/// Pruning keeps the records well formed.
proof fn lemma_prune_keeps_wf(s: Seq<JobRecord>, counter: u64)
    ensures
        all_issued_before(s, counter) ==> all_issued_before(spec_prune(s), counter),
        ids_distinct(s) ==> ids_distinct(spec_prune(s)),
{
    if finished_count(s) > MAX_FINISHED_JOBS {
        lemma_drop_keeps_wf(s, (finished_count(s) - MAX_FINISHED_JOBS) as nat, counter);
    }
}

/// A job that is not finished at the end of the list stays at the end.
proof fn lemma_drop_keeps_last_unfinished(s: Seq<JobRecord>, k: nat)
    requires
        s.len() > 0,
        !is_finished(s.last()),
    ensures
        drop_oldest_finished(s, k).len() > 0,
        drop_oldest_finished(s, k).last() == s.last(),
    decreases s.len(),
{
    let t = s.drop_first();
    if s.len() == 1 {
        assert(t.len() == 0);
        assert(drop_oldest_finished(s, k) =~= seq![s[0]] + t);
    } else {
        assert(t.last() == s.last());
        if k > 0 && is_finished(s[0]) {
            lemma_drop_keeps_last_unfinished(t, (k - 1) as nat);
        } else {
            lemma_drop_keeps_last_unfinished(t, k);
            let rest = drop_oldest_finished(t, k);
            assert((seq![s[0]] + rest).last() == rest.last());
        }
    }
}

/// A found index points at a record with that id.
proof fn lemma_index_of_found(s: Seq<JobRecord>, id: Seq<char>)
    ensures
        index_of(s, id) matches Some(k) ==> 0 <= k < s.len() && s[k].id@ == id,
    decreases s.len(),
{
    if s.len() > 0 {
        lemma_index_of_found(s.drop_last(), id);
    }
}

/// With distinct ids, the last record is found at the last index.
proof fn lemma_index_of_last(s: Seq<JobRecord>)
    requires
        s.len() > 0,
        ids_distinct(s),
    ensures
        index_of(s, s.last().id@) == Some(s.len() - 1),
{
    let p = s.drop_last();
    lemma_index_of_found(p, s.last().id@);
    if let Some(k) = index_of(p, s.last().id@) {
        assert(p[k] == s[k]);
        assert(s[k].id@ != s[s.len() - 1].id@);
    }
}

/// Appending a pending job adds one to the pending count.
proof fn lemma_pending_push(s: Seq<JobRecord>, r: JobRecord)
    requires
        is_pending(r),
    ensures
        pending_count_of(s.push(r)) == pending_count_of(s) + 1,
{
    assert(s.push(r).drop_last() =~= s);
}

/// Replacing a record by one with the same id and creation time keeps the
/// records well formed.
proof fn lemma_update_keeps_wf(s: Seq<JobRecord>, counter: u64, i: int, r: JobRecord)
    requires
        records_wf(s, counter),
        0 <= i < s.len(),
        r.id == s[i].id,
        r.created_at_ms == s[i].created_at_ms,
    ensures
        records_wf(s.update(i, r), counter),
{
    let u = s.update(i, r);
    assert(issued_before(s[i], counter));
    assert forall|a: int| 0 <= a < u.len() implies issued_before(#[trigger] u[a], counter) by {
        if a != i {
            assert(u[a] == s[a]);
        }
    }
    assert forall|a: int, b: int| #![trigger u[a], u[b]] 0 <= a < b < u.len() implies u[a].id@
        != u[b].id@ by {
        assert(s[a].id@ != s[b].id@);
    }
}

/// The pending count is the number of jobs waiting or in flight: adding a
/// queued or uploading job adds one, adding a done or failed job adds none.
pub proof fn law_pending_counts_queued_and_uploading(s: Seq<JobRecord>, r: JobRecord)
    ensures
        r.state == JobState::Queued ==> pending_count_of(s.push(r)) == pending_count_of(s) + 1,
        r.state == JobState::Uploading ==> pending_count_of(s.push(r)) == pending_count_of(s) + 1,
        r.state == JobState::Done ==> pending_count_of(s.push(r)) == pending_count_of(s),
        r.state == JobState::Failed ==> pending_count_of(s.push(r)) == pending_count_of(s),
        pending_count_of(s) <= s.len(),
    decreases s.len(),
{
    assert(s.push(r).drop_last() =~= s);
    if s.len() > 0 {
        law_pending_counts_queued_and_uploading(s.drop_last(), s.last());
    }
}

/// Replacing the record at `i` changes the pending count only by what the
/// two records contribute.
proof fn lemma_pending_update(s: Seq<JobRecord>, i: int, r: JobRecord)
    requires
        0 <= i < s.len(),
    ensures
        pending_count_of(s.update(i, r)) + (if is_pending(s[i]) {
            1int
        } else {
            0int
        }) == pending_count_of(s) + (if is_pending(r) {
            1int
        } else {
            0int
        }),
{
    let a = s.subrange(0, i);
    let b = s.subrange(i + 1, s.len() as int);
    let u = s.update(i, r);
    assert(s =~= a + seq![s[i]] + b);
    assert(u =~= a + seq![r] + b);
    lemma_counts_concat(a + seq![s[i]], b);
    lemma_counts_concat(a + seq![r], b);
    law_pending_counts_queued_and_uploading(a, s[i]);
    law_pending_counts_queued_and_uploading(a, r);
    assert(a.push(s[i]) =~= a + seq![s[i]]);
    assert(a.push(r) =~= a + seq![r]);
}

/// A job picked up by the worker is still pending: marking a queued job
/// uploading leaves the pending count unchanged, and settling an uploading
/// job (done or failed) lowers it by one.
pub proof fn law_pending_through_a_jobs_life(s: Seq<JobRecord>, i: int, r: JobRecord)
    requires
        0 <= i < s.len(),
    ensures
        s[i].state == JobState::Queued && r.state == JobState::Uploading ==> pending_count_of(
            s.update(i, r),
        ) == pending_count_of(s),
        s[i].state == JobState::Uploading && (r.state == JobState::Done || r.state
            == JobState::Failed) ==> pending_count_of(s.update(i, r)) + 1 == pending_count_of(s),
        s[i].state == JobState::Uploading ==> pending_count_of(s) >= 1,
{
    lemma_pending_update(s, i, r);
    lemma_pending_update(s, i, JobRecord { state: JobState::Done, ..s[i] });
}

} // verus!
