//! Browser pairing: hands the API token to a web origin after the user
//! clicks Approve in the desktop window (the "link button" pattern).
//!
//! Flow: the browser asks to pair (no token), the desktop UI shows the
//! requesting origin with Approve/Deny, and the browser polls until it
//! receives the token, released exactly once, after which the request is
//! consumed.
//!
//! Invariants:
//! * a request's result is only ever revealed to the origin that created it;
//! * the token is released once: a second poll finds nothing;
//! * one request may be pending at a time, and every request expires.
//!
//! Time is a monotonic clock reading in milliseconds, supplied by the caller.
use crate::text::{push_char, same_text};
use vstd::prelude::*;

verus! {

/// How long a request may sit unanswered (or approved-but-unfetched), in ms.
pub const PAIRING_TTL_MS: u64 = 120_000;

/// The desktop user's answer to a request.
#[derive(Debug, Clone, Copy, PartialEq, Eq, Structural)]
pub enum Verdict {
    Pending,
    Approved,
    Denied,
}

/// One pairing request.
#[derive(Debug, Clone, PartialEq, Eq)]
pub struct PairingRequest {
    pub id: String,
    pub origin: String,
    pub app_name: String,
    pub created_at_ms: u64,
    pub verdict: Verdict,
}

/// What the desktop UI renders in the approval banner.
#[derive(Debug, Clone, PartialEq, Eq)]
pub struct PendingPairing {
    pub id: String,
    pub origin: String,
    pub app_name: String,
    pub expires_in_ms: u64,
}

/// Outcome of a browser poll.
#[derive(Debug, Clone, Copy, PartialEq, Eq, Structural)]
pub enum PollOutcome {
    /// Never existed, expired, or already consumed. Deliberately one bucket:
    /// a poller learns nothing about requests it did not create.
    Unknown,
    /// The id exists but belongs to a different origin.
    WrongOrigin,
    Pending,
    /// Terminal; the request is consumed by this poll.
    Denied,
    /// Terminal; the caller attaches the token. Consumed by this poll.
    Approved,
}

/// The mathematical content of a request.
pub struct RequestView {
    pub id: Seq<char>,
    pub origin: Seq<char>,
    pub app_name: Seq<char>,
    pub created_at_ms: u64,
    pub verdict: Verdict,
}

impl PairingRequest {
    pub open spec fn view(&self) -> RequestView {
        RequestView {
            id: self.id@,
            origin: self.origin@,
            app_name: self.app_name@,
            created_at_ms: self.created_at_ms,
            verdict: self.verdict,
        }
    }

    /// Milliseconds elapsed since creation (zero if the clock reads earlier).
    pub open spec fn spec_elapsed(created_at_ms: u64, now_ms: u64) -> int {
        if now_ms >= created_at_ms {
            now_ms - created_at_ms
        } else {
            0
        }
    }

    /// Has the request outlived its TTL?
    pub fn expired(&self, now_ms: u64) -> (r: bool)
        ensures
            r == spec_expired(self@, now_ms),
    {
        let elapsed = if now_ms >= self.created_at_ms {
            now_ms - self.created_at_ms
        } else {
            0
        };
        elapsed > PAIRING_TTL_MS
    }

    /// The banner view of the request.
    pub fn view_at(&self, now_ms: u64) -> (r: PendingPairing)
        ensures
            r.id@ == self.id@,
            r.origin@ == self.origin@,
            r.app_name@ == self.app_name@,
            r.expires_in_ms == spec_expires_in(self@, now_ms),
    {
        let elapsed = if now_ms >= self.created_at_ms {
            now_ms - self.created_at_ms
        } else {
            0
        };
        PendingPairing {
            id: self.id.clone(),
            origin: self.origin.clone(),
            app_name: self.app_name.clone(),
            expires_in_ms: if elapsed >= PAIRING_TTL_MS {
                0
            } else {
                PAIRING_TTL_MS - elapsed
            },
        }
    }
}

/// The request has outlived its TTL at `now_ms`.
pub open spec fn spec_expired(r: RequestView, now_ms: u64) -> bool {
    PairingRequest::spec_elapsed(r.created_at_ms, now_ms) > PAIRING_TTL_MS
}

/// Milliseconds the request has left at `now_ms` (zero once expired).
pub open spec fn spec_expires_in(r: RequestView, now_ms: u64) -> int {
    let e = PairingRequest::spec_elapsed(r.created_at_ms, now_ms);
    if e >= PAIRING_TTL_MS {
        0
    } else {
        PAIRING_TTL_MS - e
    }
}

/// A request that is still awaiting the user's answer.
pub open spec fn spec_live_pending(s: Option<RequestView>, now_ms: u64) -> bool {
    s matches Some(r) && r.verdict == Verdict::Pending && !spec_expired(r, now_ms)
}

/// `begin`: refused while a live request is pending; otherwise the slot
/// holds a fresh pending request.
pub open spec fn spec_begin(
    s: Option<RequestView>,
    id: Seq<char>,
    origin: Seq<char>,
    app_name: Seq<char>,
    now_ms: u64,
) -> (bool, Option<RequestView>) {
    if spec_live_pending(s, now_ms) {
        (false, s)
    } else {
        (
            true,
            Some(
                RequestView {
                    id: id,
                    origin: origin,
                    app_name: app_name,
                    created_at_ms: now_ms,
                    verdict: Verdict::Pending,
                },
            ),
        )
    }
}

/// `poll`: the outcome a browser sees and the slot afterwards. Terminal
/// outcomes and expiry empty the slot.
pub open spec fn spec_poll(s: Option<RequestView>, id: Seq<char>, origin: Seq<char>, now_ms: u64) -> (
    PollOutcome,
    Option<RequestView>,
) {
    match s {
        None => (PollOutcome::Unknown, None),
        Some(r) => {
            if spec_expired(r, now_ms) {
                (PollOutcome::Unknown, None)
            } else if r.id != id {
                (PollOutcome::Unknown, s)
            } else if r.origin != origin {
                (PollOutcome::WrongOrigin, s)
            } else {
                match r.verdict {
                    Verdict::Pending => (PollOutcome::Pending, s),
                    Verdict::Denied => (PollOutcome::Denied, None),
                    Verdict::Approved => (PollOutcome::Approved, None),
                }
            }
        },
    }
}

/// `respond`: resolves the live pending request named `id`, returning its
/// origin; anything else changes nothing.
pub open spec fn spec_respond(s: Option<RequestView>, id: Seq<char>, approve: bool, now_ms: u64) -> (
    Option<Seq<char>>,
    Option<RequestView>,
) {
    match s {
        Some(r) => {
            if r.id == id && r.verdict == Verdict::Pending && !spec_expired(r, now_ms) {
                (
                    Some(r.origin),
                    Some(
                        RequestView {
                            verdict: if approve {
                                Verdict::Approved
                            } else {
                                Verdict::Denied
                            },
                            ..r
                        },
                    ),
                )
            } else {
                (None, s)
            }
        },
        None => (None, s),
    }
}

/// The single pairing slot. One request at a time: the desktop prompt is
/// never a stack of dialogs, and a spamming page can only replace its own
/// expired or answered requests.
pub struct Pairing {
    pub slot: Option<PairingRequest>,
}

/// The mathematical content of the slot.
pub open spec fn slot_view(slot: Option<PairingRequest>) -> Option<RequestView> {
    match slot {
        Some(r) => Some(r@),
        None => None,
    }
}

/// A lowercase hexadecimal digit.
pub open spec fn is_lower_hex(c: char) -> bool {
    let u = c as u32;
    (48 <= u <= 57) || (97 <= u <= 102)
}

/// One uniformly random value in `0..16`, from `rand::random_range`.
/// The value depends on chance; only its range is stated.
#[verifier::external_body]
fn random_nibble() -> (r: u8)
    ensures
        r < 16,
{
    rand::random_range(0..16u8)
}

/// The lowercase hex digit for `d < 16`.
pub open spec fn hex_char(d: u8) -> char {
    if d < 10 {
        (48 + d) as char
    } else {
        (87 + d) as char
    }
}

/// The hex digits for a sequence of values below 16, one each, in order.
pub open spec fn hex_text(nibbles: Seq<u8>) -> Seq<char> {
    Seq::new(nibbles.len(), |i: int| hex_char(nibbles[i]))
}

/// Every value is below 16.
pub open spec fn all_nibbles(nibbles: Seq<u8>) -> bool {
    forall|i: int| 0 <= i < nibbles.len() ==> #[trigger] nibbles[i] < 16
}

/// The hex digits of values below 16 are lowercase hex.
pub proof fn law_hex_text_is_lower_hex(nibbles: Seq<u8>)
    requires
        all_nibbles(nibbles),
    ensures
        hex_text(nibbles).len() == nibbles.len(),
        forall|i: int| 0 <= i < nibbles.len() ==> is_lower_hex(#[trigger] hex_text(nibbles)[i]),
{
    assert forall|i: int| 0 <= i < nibbles.len() implies is_lower_hex(
        #[trigger] hex_text(nibbles)[i],
    ) by {
        assert(nibbles[i] < 16);
    }
}

/// Spell values below 16 as lowercase hex digits, one digit each.
pub fn hex_digits(nibbles: &Vec<u8>) -> (r: String)
    requires
        all_nibbles(nibbles@),
    ensures
        r@ == hex_text(nibbles@),
{
    let mut s = String::new();
    let mut i: usize = 0;
    while i < nibbles.len()
        invariant
            i <= nibbles.len(),
            all_nibbles(nibbles@),
            s@ == hex_text(nibbles@.subrange(0, i as int)),
        decreases nibbles.len() - i,
    {
        let d = nibbles[i];
        assert(d < 16);
        let c = if d < 10 {
            (48 + d) as char
        } else {
            (87 + d) as char
        };
        push_char(&mut s, c);
        assert(s@ =~= hex_text(nibbles@.subrange(0, i + 1)));
        i += 1;
    }
    assert(nibbles@.subrange(0, nibbles.len() as int) =~= nibbles@);
    s
}

/// `n` draws from [`random_nibble`].
fn random_nibbles(n: usize) -> (r: Vec<u8>)
    ensures
        r@.len() == n,
        all_nibbles(r@),
{
    let mut v: Vec<u8> = Vec::new();
    let mut i: usize = 0;
    while i < n
        invariant
            i <= n,
            v@.len() == i,
            all_nibbles(v@),
        decreases n - i,
    {
        let d = random_nibble();
        v.push(d);
        i += 1;
    }
    v
}

/// `n` random lowercase hex digits (`n * 4` bits of randomness): `n`
/// values drawn in `0..16`, each spelled as one hex digit. Which values
/// are drawn is chance; the spelling of the drawn values is stated.
pub fn random_hex(n: usize) -> (r: String)
    ensures
        exists|nibbles: Seq<u8>|
            #![trigger hex_text(nibbles)]
            nibbles.len() == n && all_nibbles(nibbles) && r@ == hex_text(nibbles),
        r@.len() == n,
        forall|i: int| 0 <= i < n ==> is_lower_hex(#[trigger] r@[i]),
{
    let v = random_nibbles(n);
    let s = hex_digits(&v);
    proof {
        law_hex_text_is_lower_hex(v@);
    }
    s
}

/// 128 bits of randomness, hex-encoded: unguessable request ids.
pub fn random_id() -> (r: String)
    ensures
        exists|nibbles: Seq<u8>|
            #![trigger hex_text(nibbles)]
            nibbles.len() == 32 && all_nibbles(nibbles) && r@ == hex_text(nibbles),
        r@.len() == 32,
        forall|i: int| 0 <= i < 32 ==> is_lower_hex(#[trigger] r@[i]),
{
    random_hex(32)
}

impl Pairing {
    /// An empty slot.
    pub fn new() -> (r: Pairing)
        ensures
            r@ is None,
    {
        Pairing { slot: None }
    }

    pub open spec fn view(&self) -> Option<RequestView> {
        slot_view(self.slot)
    }

    /// Create a new request under the given id. `Err(())` (and no change)
    /// if a live request is already pending.
    pub fn begin_with_id(&mut self, id: String, origin: String, app_name: String, now_ms: u64) -> (r:
        Result<PendingPairing, ()>)
        ensures
            (r is Ok, final(self)@) == spec_begin(old(self)@, id@, origin@, app_name@, now_ms),
            r matches Ok(p) ==> p.id@ == id@ && p.origin@ == origin@ && p.app_name@ == app_name@
                && p.expires_in_ms == PAIRING_TTL_MS,
    {
        let busy = match &self.slot {
            Some(existing) => existing.verdict == Verdict::Pending && !existing.expired(now_ms),
            None => false,
        };
        if busy {
            return Err(());
        }
        let request = PairingRequest {
            id,
            origin,
            app_name,
            created_at_ms: now_ms,
            verdict: Verdict::Pending,
        };
        let view = request.view_at(now_ms);
        self.slot = Some(request);
        Ok(view)
    }

    /// Create a new request with a fresh random id. `Err(())` (and no
    /// change) if a live request is already pending.
    pub fn begin(&mut self, origin: String, app_name: String, now_ms: u64) -> (r: Result<
        PendingPairing,
        (),
    >)
        ensures
            r is Ok <==> !spec_live_pending(old(self)@, now_ms),
            r is Err ==> final(self)@ == old(self)@,
            r matches Ok(p) ==> {
                &&& exists|nibbles: Seq<u8>|
                    #![trigger hex_text(nibbles)]
                    nibbles.len() == 32 && all_nibbles(nibbles) && p.id@ == hex_text(nibbles)
                &&& p.id@.len() == 32
                &&& forall|i: int| 0 <= i < 32 ==> is_lower_hex(#[trigger] p.id@[i])
                &&& final(self)@ == spec_begin(old(self)@, p.id@, origin@, app_name@, now_ms).1
                &&& p.origin@ == origin@ && p.app_name@ == app_name@
                &&& p.expires_in_ms == PAIRING_TTL_MS
            },
    {
        let id = random_id();
        self.begin_with_id(id, origin, app_name, now_ms)
    }

    /// Browser poll. Terminal outcomes (approved/denied) consume the slot,
    /// which is what makes the token single-release.
    pub fn poll(&mut self, id: &str, origin: &str, now_ms: u64) -> (r: PollOutcome)
        ensures
            (r, final(self)@) == spec_poll(old(self)@, id@, origin@, now_ms),
    {
        let (outcome, clear) = match &self.slot {
            None => (PollOutcome::Unknown, false),
            Some(request) => {
                if request.expired(now_ms) {
                    (PollOutcome::Unknown, true)
                } else if !same_text(request.id.as_str(), id) {
                    (PollOutcome::Unknown, false)
                } else if !same_text(request.origin.as_str(), origin) {
                    (PollOutcome::WrongOrigin, false)
                } else {
                    match request.verdict {
                        Verdict::Pending => (PollOutcome::Pending, false),
                        Verdict::Denied => (PollOutcome::Denied, true),
                        Verdict::Approved => (PollOutcome::Approved, true),
                    }
                }
            },
        };
        if clear {
            self.slot = None;
        }
        outcome
    }

    /// The request the desktop UI should be showing, if any.
    pub fn pending(&self, now_ms: u64) -> (r: Option<PendingPairing>)
        ensures
            r is Some <==> spec_live_pending(self@, now_ms),
            r matches Some(p) ==> self.slot matches Some(q) && p.id@ == q.id@ && p.origin@
                == q.origin@ && p.app_name@ == q.app_name@ && p.expires_in_ms == spec_expires_in(
                q@,
                now_ms,
            ),
    {
        match &self.slot {
            Some(r) => {
                if r.verdict == Verdict::Pending && !r.expired(now_ms) {
                    Some(r.view_at(now_ms))
                } else {
                    None
                }
            },
            None => None,
        }
    }

    /// Resolve the pending request (desktop UI only). Returns the
    /// requesting origin, or `None` if `id` names no live pending request.
    pub fn respond(&mut self, id: &str, approve: bool, now_ms: u64) -> (r: Option<String>)
        ensures
            (match r {
                Some(o) => Some(o@),
                None => None,
            }, final(self)@) == spec_respond(old(self)@, id@, approve, now_ms),
    {
        let live = match &self.slot {
            Some(r) => same_text(r.id.as_str(), id) && r.verdict == Verdict::Pending && !r.expired(
                now_ms,
            ),
            None => false,
        };
        if !live {
            return None;
        }
        match self.slot.take() {
            Some(mut request) => {
                request.verdict = if approve {
                    Verdict::Approved
                } else {
                    Verdict::Denied
                };
                let origin = request.origin.clone();
                self.slot = Some(request);
                Some(origin)
            },
            None => None,
        }
    }
}

// ---------------------------------------------------------------------------
// Laws

/// The token is released at most once: after a poll answers `Approved`, no
/// later poll (by anyone, at any time) answers `Approved` or `Denied` until
/// a new request is begun.
pub proof fn law_release_once(
    s: Option<RequestView>,
    id: Seq<char>,
    origin: Seq<char>,
    t1: u64,
    id2: Seq<char>,
    origin2: Seq<char>,
    t2: u64,
)
    requires
        spec_poll(s, id, origin, t1).0 == PollOutcome::Approved,
    ensures
        spec_poll(spec_poll(s, id, origin, t1).1, id2, origin2, t2).0 == PollOutcome::Unknown,
{
}

/// A request's result is only revealed to the origin that created it: a
/// poll that answers `Pending`, `Denied` or `Approved` names the request's
/// id and origin.
pub proof fn law_result_is_origin_bound(
    s: Option<RequestView>,
    id: Seq<char>,
    origin: Seq<char>,
    now_ms: u64,
)
    requires
        spec_poll(s, id, origin, now_ms).0 == PollOutcome::Pending || spec_poll(
            s,
            id,
            origin,
            now_ms,
        ).0 == PollOutcome::Denied || spec_poll(s, id, origin, now_ms).0
            == PollOutcome::Approved,
    ensures
        s matches Some(r) && r.id == id && r.origin == origin && !spec_expired(r, now_ms),
{
}

/// A poll from another origin changes nothing (unless the request has
/// expired, which empties the slot).
pub proof fn law_foreign_poll_consumes_nothing(
    s: Option<RequestView>,
    id: Seq<char>,
    origin: Seq<char>,
    now_ms: u64,
)
    requires
        s matches Some(r) && r.origin != origin && !spec_expired(r, now_ms),
    ensures
        spec_poll(s, id, origin, now_ms).1 == s,
        spec_poll(s, id, origin, now_ms).0 == PollOutcome::Unknown || spec_poll(
            s,
            id,
            origin,
            now_ms,
        ).0 == PollOutcome::WrongOrigin,
{
}

/// `Approved` is only ever answered after the desktop user approved: the
/// slot held an approved request for that id and origin.
pub proof fn law_approval_needs_the_user(
    s: Option<RequestView>,
    id: Seq<char>,
    origin: Seq<char>,
    now_ms: u64,
)
    requires
        spec_poll(s, id, origin, now_ms).0 == PollOutcome::Approved,
    ensures
        s matches Some(r) && r.verdict == Verdict::Approved && r.id == id && r.origin == origin,
{
}

/// One request at a time: while a live request is pending, `begin` fails
/// and leaves the slot as it was.
pub proof fn law_one_pending_at_a_time(
    s: Option<RequestView>,
    id: Seq<char>,
    origin: Seq<char>,
    app_name: Seq<char>,
    now_ms: u64,
)
    requires
        spec_live_pending(s, now_ms),
    ensures
        spec_begin(s, id, origin, app_name, now_ms) == (false, s),
{
}

/// An answered request cannot be answered again: `respond` on a request
/// that is no longer pending returns `None` and changes nothing.
pub proof fn law_verdict_is_final(
    s: Option<RequestView>,
    id: Seq<char>,
    approve: bool,
    now_ms: u64,
)
    requires
        s matches Some(r) && r.verdict != Verdict::Pending,
    ensures
        spec_respond(s, id, approve, now_ms) == (None::<Seq<char>>, s),
{
}

/// Every request expires: past its TTL it is no longer pending, cannot be
/// answered, polls find nothing, and a new request can begin.
pub proof fn law_requests_expire(
    s: Option<RequestView>,
    id: Seq<char>,
    origin: Seq<char>,
    app_name: Seq<char>,
    approve: bool,
    now_ms: u64,
)
    requires
        s matches Some(r) && spec_expired(r, now_ms),
    ensures
        !spec_live_pending(s, now_ms),
        spec_respond(s, id, approve, now_ms).0 is None,
        spec_poll(s, id, origin, now_ms) == (PollOutcome::Unknown, None::<RequestView>),
        spec_begin(s, id, origin, app_name, now_ms).0,
{
}

/// The full approve flow: begin, approve, then the creating origin's poll
/// answers `Approved` and the slot is empty again.
pub proof fn law_approve_flow(
    s: Option<RequestView>,
    id: Seq<char>,
    origin: Seq<char>,
    app_name: Seq<char>,
    t0: u64,
    t1: u64,
    t2: u64,
)
    requires
        !spec_live_pending(s, t0),
        t0 <= t1 <= t2,
        t2 - t0 <= PAIRING_TTL_MS,
    ensures
        ({
            let s1 = spec_begin(s, id, origin, app_name, t0).1;
            let (o, s2) = spec_respond(s1, id, true, t1);
            &&& o == Some(origin)
            &&& spec_poll(s2, id, origin, t2) == (PollOutcome::Approved, None::<RequestView>)
        }),
{
}

} // verus!
