//! In-memory application log.
//!
//! A bounded ring buffer of user-relevant events (discovery, uploads,
//! errors), shown on the Logs page. Entries carry a monotonically
//! increasing sequence number so clients can poll incrementally
//! (`?afterSeq=`).
use std::collections::VecDeque;
use vstd::prelude::*;

verus! {

/// How many entries the log keeps; the oldest is dropped beyond this.
pub const LOG_CAPACITY: usize = 1000;

#[derive(Debug, Clone, Copy, PartialEq, Eq, Structural)]
pub enum LogLevel {
    Info,
    Warn,
    Error,
}

/// One log line.
#[derive(Debug, Clone, PartialEq, Eq)]
pub struct LogEntry {
    /// Monotonic sequence number, 1-based.
    pub seq: u64,
    /// Milliseconds since the Unix epoch.
    pub timestamp_ms: u64,
    pub level: LogLevel,
    pub message: String,
}

impl LogEntry {
    /// A field-by-field copy.
    pub fn duplicate(&self) -> (r: LogEntry)
        ensures
            r == *self,
    {
        LogEntry {
            seq: self.seq,
            timestamp_ms: self.timestamp_ms,
            level: self.level,
            message: self.message.clone(),
        }
    }
}

/// Milliseconds since the Unix epoch from the system clock
/// (`SystemTime::now`), 0 if the clock reads before the epoch. The reading
/// depends on the time; nothing is stated of it.
#[verifier::external_body]
pub(crate) fn now_ms() -> (r: u64) {
    std::time::SystemTime::now().duration_since(std::time::UNIX_EPOCH).map(
        |d| d.as_millis() as u64,
    ).unwrap_or(0)
}

/// The entries of `s` whose sequence number is above `after`, in order.
pub open spec fn entries_after(s: Seq<LogEntry>, after: u64) -> Seq<LogEntry>
    decreases s.len(),
{
    if s.len() == 0 {
        s
    } else if s.last().seq > after {
        entries_after(s.drop_last(), after).push(s.last())
    } else {
        entries_after(s.drop_last(), after)
    }
}

/// The bounded log.
pub struct LogBuffer {
    pub entries: VecDeque<LogEntry>,
    /// The sequence number of the latest entry (0 before the first).
    pub seq: u64,
}

impl LogBuffer {
    /// Well-formed: at most `LOG_CAPACITY` entries, sequence numbers
    /// strictly increasing, at least 1 and never above the counter.
    pub open spec fn wf(&self) -> bool {
        &&& self.entries@.len() <= LOG_CAPACITY
        &&& forall|i: int, j: int|
            0 <= i < j < self.entries@.len() ==> #[trigger] self.entries@[i].seq
                < #[trigger] self.entries@[j].seq
        &&& forall|i: int| 0 <= i < self.entries@.len() ==> #[trigger] self.entries@[i].seq <= self.seq
        &&& forall|i: int| 0 <= i < self.entries@.len() ==> #[trigger] self.entries@[i].seq >= 1
    }

    /// An empty log.
    pub fn new() -> (r: LogBuffer)
        ensures
            r.wf(),
            r.entries@.len() == 0,
            r.seq == 0,
    {
        LogBuffer { entries: VecDeque::new(), seq: 0 }
    }

    /// Append an entry; the oldest is dropped when the log is full.
    pub fn push_at(&mut self, level: LogLevel, message: String, timestamp_ms: u64)
        ensures
            final(self).seq == old(self).seq.wrapping_add(1),
            ({
                let e = LogEntry { seq: final(self).seq, timestamp_ms, level, message };
                final(self).entries@ == if old(self).entries@.len() >= LOG_CAPACITY {
                    old(self).entries@.drop_first().push(e)
                } else {
                    old(self).entries@.push(e)
                }
            }),
            old(self).wf() && old(self).seq < u64::MAX ==> final(self).wf(),
    {
        self.seq = self.seq.wrapping_add(1);
        let entry = LogEntry { seq: self.seq, timestamp_ms, level, message };
        if self.entries.len() >= LOG_CAPACITY {
            let _ = self.entries.pop_front();
        }
        self.entries.push_back(entry);
        proof {
            if old(self).wf() && old(self).seq < u64::MAX {
                assert forall|i: int, j: int|
                    0 <= i < j < self.entries@.len() implies #[trigger] self.entries@[i].seq
                    < #[trigger] self.entries@[j].seq by {
                    if old(self).entries@.len() >= LOG_CAPACITY {
                        if j < self.entries@.len() - 1 {
                            assert(self.entries@[i] == old(self).entries@[i + 1]);
                            assert(self.entries@[j] == old(self).entries@[j + 1]);
                        } else {
                            assert(self.entries@[i] == old(self).entries@[i + 1]);
                        }
                    } else {
                        if j < self.entries@.len() - 1 {
                            assert(self.entries@[i] == old(self).entries@[i]);
                        } else {
                            assert(self.entries@[i] == old(self).entries@[i]);
                        }
                    }
                }
                assert forall|i: int| 0 <= i < self.entries@.len() implies #[trigger]
                    self.entries@[i].seq <= self.seq by {
                    if i < self.entries@.len() - 1 {
                        if old(self).entries@.len() >= LOG_CAPACITY {
                            assert(self.entries@[i] == old(self).entries@[i + 1]);
                        } else {
                            assert(self.entries@[i] == old(self).entries@[i]);
                        }
                    }
                }
            }
        }
    }

    /// Append an entry stamped with the system clock.
    pub fn push(&mut self, level: LogLevel, message: String)
        ensures
            final(self).seq == old(self).seq.wrapping_add(1),
            final(self).entries@.len() > 0,
            final(self).entries@.last().seq == final(self).seq,
            final(self).entries@.last().level == level,
            final(self).entries@.last().message == message,
            final(self).entries@.drop_last() == if old(self).entries@.len() >= LOG_CAPACITY {
                old(self).entries@.drop_first()
            } else {
                old(self).entries@
            },
            old(self).wf() && old(self).seq < u64::MAX ==> final(self).wf(),
    {
        let t = now_ms();
        self.push_at(level, message, t);
    }

    /// Log an informational message.
    pub fn info(&mut self, message: String)
        ensures
            final(self).seq == old(self).seq.wrapping_add(1),
            final(self).entries@.len() > 0,
            final(self).entries@.last().seq == final(self).seq,
            final(self).entries@.last().level == LogLevel::Info,
            final(self).entries@.last().message == message,
            final(self).entries@.drop_last() == if old(self).entries@.len() >= LOG_CAPACITY {
                old(self).entries@.drop_first()
            } else {
                old(self).entries@
            },
            old(self).wf() && old(self).seq < u64::MAX ==> final(self).wf(),
    {
        self.push(LogLevel::Info, message);
    }

    /// Log a warning.
    pub fn warn(&mut self, message: String)
        ensures
            final(self).seq == old(self).seq.wrapping_add(1),
            final(self).entries@.len() > 0,
            final(self).entries@.last().seq == final(self).seq,
            final(self).entries@.last().level == LogLevel::Warn,
            final(self).entries@.last().message == message,
            final(self).entries@.drop_last() == if old(self).entries@.len() >= LOG_CAPACITY {
                old(self).entries@.drop_first()
            } else {
                old(self).entries@
            },
            old(self).wf() && old(self).seq < u64::MAX ==> final(self).wf(),
    {
        self.push(LogLevel::Warn, message);
    }

    /// Log an error.
    pub fn error(&mut self, message: String)
        ensures
            final(self).seq == old(self).seq.wrapping_add(1),
            final(self).entries@.len() > 0,
            final(self).entries@.last().seq == final(self).seq,
            final(self).entries@.last().level == LogLevel::Error,
            final(self).entries@.last().message == message,
            final(self).entries@.drop_last() == if old(self).entries@.len() >= LOG_CAPACITY {
                old(self).entries@.drop_first()
            } else {
                old(self).entries@
            },
            old(self).wf() && old(self).seq < u64::MAX ==> final(self).wf(),
    {
        self.push(LogLevel::Error, message);
    }

    /// Entries with `seq > after_seq`, oldest first.
    pub fn since(&self, after_seq: u64) -> (r: Vec<LogEntry>)
        ensures
            r@ == entries_after(self.entries@, after_seq),
    {
        let mut out: Vec<LogEntry> = Vec::new();
        let mut i: usize = 0;
        while i < self.entries.len()
            invariant
                i <= self.entries.len(),
                out@ == entries_after(self.entries@.subrange(0, i as int), after_seq),
            decreases self.entries.len() - i,
        {
            proof {
                assert(self.entries@.subrange(0, i + 1).drop_last() =~= self.entries@.subrange(
                    0,
                    i as int,
                ));
            }
            if self.entries[i].seq > after_seq {
                out.push(self.entries[i].duplicate());
            }
            i += 1;
        }
        assert(self.entries@.subrange(0, self.entries.len() as int) =~= self.entries@);
        out
    }

    /// The sequence number of the latest entry (0 if none yet).
    pub fn last_seq(&self) -> (r: u64)
        ensures
            r == self.seq,
    {
        self.seq
    }
}

// ---------------------------------------------------------------------------
// Laws

/// Everything `entries_after` returns is in the log and newer than `after`.
pub proof fn law_since_returns_only_newer(s: Seq<LogEntry>, after: u64)
    ensures
        forall|i: int|
            0 <= i < entries_after(s, after).len() ==> #[trigger] entries_after(s, after)[i].seq
                > after && s.contains(entries_after(s, after)[i]),
        entries_after(s, after).len() <= s.len(),
    decreases s.len(),
{
    if s.len() > 0 {
        law_since_returns_only_newer(s.drop_last(), after);
        let prev = entries_after(s.drop_last(), after);
        assert forall|i: int| 0 <= i < entries_after(s, after).len() implies #[trigger]
            entries_after(s, after)[i].seq > after && s.contains(entries_after(s, after)[i]) by {
            if s.last().seq > after && i == prev.len() {
                assert(s[s.len() - 1] == s.last());
            } else {
                assert(i < prev.len());
                assert(entries_after(s, after)[i] == prev[i]);
                assert(prev[i].seq > after);
                assert(s.drop_last().contains(prev[i]));
                let m = choose|m: int| 0 <= m < s.drop_last().len() && s.drop_last()[m] == prev[i];
                assert(s[m] == prev[i]);
            }
        }
    }
}

/// Incremental polling loses nothing that is still held: polling after the
/// last sequence number a client saw yields every newer entry, and polling
/// after the current counter yields nothing.
pub proof fn law_since_counter_is_empty(b: LogBuffer)
    requires
        b.wf(),
    ensures
        entries_after(b.entries@, b.seq).len() == 0,
{
    lemma_after_bound_empty(b.entries@, b.seq);
}

proof fn lemma_after_bound_empty(s: Seq<LogEntry>, after: u64)
    requires
        forall|i: int| 0 <= i < s.len() ==> #[trigger] s[i].seq <= after,
    ensures
        entries_after(s, after).len() == 0,
    decreases s.len(),
{
    if s.len() > 0 {
        assert(s[s.len() - 1].seq <= after);
        lemma_after_bound_empty(s.drop_last(), after);
    }
}

/// Polling after 0 returns every entry the log holds.
pub proof fn law_since_zero_is_everything(b: LogBuffer)
    requires
        b.wf(),
    ensures
        entries_after(b.entries@, 0) == b.entries@,
{
    lemma_after_zero(b.entries@);
}

proof fn lemma_after_zero(s: Seq<LogEntry>)
    requires
        forall|i: int| 0 <= i < s.len() ==> #[trigger] s[i].seq >= 1,
    ensures
        entries_after(s, 0) == s,
    decreases s.len(),
{
    if s.len() > 0 {
        assert(s[s.len() - 1].seq >= 1);
        lemma_after_zero(s.drop_last());
        assert(s.drop_last().push(s.last()) =~= s);
    }
}

} // verus!
