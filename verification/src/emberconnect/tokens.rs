//! Per-dongle pairing tokens.
//!
//! Dongle firmware 0.4.0+ requires a bearer token on every API call except
//! health and pairing. Tokens are minted by the dongle when we pair and are
//! kept here, keyed by dongle serial. Persisting them is the caller's job:
//! [`TokenStore::set`] always changes the store, [`TokenStore::forget`]
//! says whether it did.
use crate::text::same_text;
use vstd::prelude::*;

verus! {

/// One stored token.
#[derive(Debug, Clone, PartialEq, Eq)]
pub struct TokenEntry {
    pub serial: String,
    pub token: String,
}

/// Some entry of `s` has this serial.
pub open spec fn has_serial(s: Seq<TokenEntry>, k: Seq<char>) -> bool {
    exists|i: int| 0 <= i < s.len() && #[trigger] s[i].serial@ == k
}

/// The tokens as a map from serial to token.
pub open spec fn tokens_view(s: Seq<TokenEntry>) -> Map<Seq<char>, Seq<char>> {
    Map::new(
        |k: Seq<char>| has_serial(s, k),
        |k: Seq<char>| s[choose|i: int| 0 <= i < s.len() && #[trigger] s[i].serial@ == k].token@,
    )
}

/// No serial appears twice.
pub open spec fn unique_serials(s: Seq<TokenEntry>) -> bool {
    forall|i: int, j: int|
        0 <= i < s.len() && 0 <= j < s.len() && i != j ==> #[trigger] s[i].serial@
            != #[trigger] s[j].serial@
}

/// The token store: one token per dongle serial.
pub struct TokenStore {
    pub entries: Vec<TokenEntry>,
}

impl TokenStore {
    pub open spec fn wf(&self) -> bool {
        unique_serials(self.entries@)
    }

    pub open spec fn view(&self) -> Map<Seq<char>, Seq<char>> {
        tokens_view(self.entries@)
    }

    /// An empty store: no dongle paired yet.
    pub fn new() -> (r: TokenStore)
        ensures
            r.wf(),
            r@ == Map::<Seq<char>, Seq<char>>::empty(),
    {
        let r = TokenStore { entries: Vec::new() };
        assert(r@ =~= Map::<Seq<char>, Seq<char>>::empty());
        r
    }

    /// Index of the entry for `serial`.
    fn position(&self, serial: &str) -> (r: Option<usize>)
        requires
            self.wf(),
        ensures
            match r {
                Some(i) => i < self.entries@.len() && self.entries@[i as int].serial@ == serial@,
                None => !has_serial(self.entries@, serial@),
            },
    {
        let mut i: usize = 0;
        while i < self.entries.len()
            invariant
                i <= self.entries.len(),
                forall|j: int| 0 <= j < i ==> #[trigger] self.entries@[j].serial@ != serial@,
            decreases self.entries.len() - i,
        {
            if same_text(self.entries[i].serial.as_str(), serial) {
                return Some(i);
            }
            i += 1;
        }
        None
    }

    /// The token held for a dongle, if paired before.
    pub fn get(&self, serial: &str) -> (r: Option<String>)
        requires
            self.wf(),
        ensures
            r is Some <==> self@.dom().contains(serial@),
            r matches Some(t) ==> t@ == self@[serial@],
    {
        match self.position(serial) {
            Some(i) => {
                proof {
                    let k = serial@;
                    let c = choose|j: int|
                        0 <= j < self.entries@.len() && #[trigger] self.entries@[j].serial@ == k;
                    assert(c == i as int);
                }
                Some(self.entries[i].token.clone())
            },
            None => None,
        }
    }

    /// Remember a freshly minted token, replacing any earlier one.
    pub fn set(&mut self, serial: &str, token: &str)
        requires
            old(self).wf(),
        ensures
            final(self).wf(),
            final(self)@ == old(self)@.insert(serial@, token@),
    {
        let entry = TokenEntry { serial: serial.to_owned(), token: token.to_owned() };
        match self.position(serial) {
            Some(i) => {
                self.entries.set(i, entry);
                proof {
                    let s = self.entries@;
                    assert forall|a: int, b: int|
                        0 <= a < s.len() && 0 <= b < s.len() && a != b implies #[trigger] s[a].serial@
                        != #[trigger] s[b].serial@ by {
                        if a != i && b != i {
                            assert(s[a] == old(self).entries@[a]);
                            assert(s[b] == old(self).entries@[b]);
                        } else if a == i {
                            assert(s[b] == old(self).entries@[b]);
                        } else {
                            assert(s[a] == old(self).entries@[a]);
                        }
                    }
                    self.lemma_view_after_set(old(self).entries@, i as int, serial@, token@);
                }
            },
            None => {
                self.entries.push(entry);
                proof {
                    let s = self.entries@;
                    let o = old(self).entries@;
                    assert forall|a: int, b: int|
                        0 <= a < s.len() && 0 <= b < s.len() && a != b implies #[trigger] s[a].serial@
                        != #[trigger] s[b].serial@ by {
                        if a < o.len() && b < o.len() {
                            assert(s[a] == o[a] && s[b] == o[b]);
                        } else if a < o.len() {
                            assert(s[a] == o[a]);
                        } else {
                            assert(s[b] == o[b]);
                        }
                    }
                    let m = tokens_view(s);
                    let n = tokens_view(o).insert(serial@, token@);
                    assert forall|k: Seq<char>| #[trigger] m.dom().contains(k) <==> n.dom().contains(k) by {
                        if has_serial(s, k) {
                            let j = choose|j: int| 0 <= j < s.len() && #[trigger] s[j].serial@ == k;
                            if j < o.len() {
                                assert(o[j].serial@ == k);
                            }
                        }
                        if has_serial(o, k) {
                            let j = choose|j: int| 0 <= j < o.len() && #[trigger] o[j].serial@ == k;
                            assert(s[j].serial@ == k);
                        }
                        if k == serial@ {
                            assert(s[o.len() as int].serial@ == k);
                        }
                    }
                    assert forall|k: Seq<char>| #[trigger] m.dom().contains(k) implies m[k] == n[k] by {
                        let j = choose|j: int| 0 <= j < s.len() && #[trigger] s[j].serial@ == k;
                        if k == serial@ {
                            assert(j == o.len());
                        } else {
                            assert(j < o.len());
                            assert(o[j].serial@ == k);
                            let jo = choose|jo: int| 0 <= jo < o.len() && #[trigger] o[jo].serial@ == k;
                            assert(jo == j);
                        }
                    }
                    assert(m =~= n);
                }
            },
        }
    }

    proof fn lemma_view_after_set(&self, o: Seq<TokenEntry>, i: int, serial: Seq<char>, token: Seq<char>)
        requires
            unique_serials(o),
            0 <= i < o.len(),
            o[i].serial@ == serial,
            self.entries@.len() == o.len(),
            self.entries@[i].serial@ == serial,
            self.entries@[i].token@ == token,
            forall|j: int| 0 <= j < o.len() && j != i ==> self.entries@[j] == o[j],
        ensures
            tokens_view(self.entries@) == tokens_view(o).insert(serial, token),
    {
        let s = self.entries@;
        let m = tokens_view(s);
        let n = tokens_view(o).insert(serial, token);
        assert forall|k: Seq<char>| #[trigger] m.dom().contains(k) <==> n.dom().contains(k) by {
            if has_serial(s, k) {
                let j = choose|j: int| 0 <= j < s.len() && #[trigger] s[j].serial@ == k;
                if j != i {
                    assert(o[j].serial@ == k);
                }
            }
            if has_serial(o, k) {
                let j = choose|j: int| 0 <= j < o.len() && #[trigger] o[j].serial@ == k;
                if j != i {
                    assert(s[j].serial@ == k);
                }
            }
            if k == serial {
                assert(s[i].serial@ == k);
            }
        }
        assert forall|k: Seq<char>| #[trigger] m.dom().contains(k) implies m[k] == n[k] by {
            let j = choose|j: int| 0 <= j < s.len() && #[trigger] s[j].serial@ == k;
            if k == serial {
                if j != i {
                    assert(o[j].serial@ == k);
                }
            } else {
                assert(j != i);
                assert(o[j].serial@ == k);
                let jo = choose|jo: int| 0 <= jo < o.len() && #[trigger] o[jo].serial@ == k;
                if jo != j {
                    assert(o[jo].serial@ != o[j].serial@);
                }
            }
        }
        assert(m =~= n);
    }

    /// Drop a token the dongle no longer accepts (revoked / factory reset).
    /// Returns whether there was one, i.e. whether the store changed.
    pub fn forget(&mut self, serial: &str) -> (r: bool)
        requires
            old(self).wf(),
        ensures
            final(self).wf(),
            r == old(self)@.dom().contains(serial@),
            final(self)@ == old(self)@.remove(serial@),
    {
        match self.position(serial) {
            Some(i) => {
                self.entries.remove(i);
                proof {
                    let s = self.entries@;
                    let o = old(self).entries@;
                    assert forall|a: int, b: int|
                        0 <= a < s.len() && 0 <= b < s.len() && a != b implies #[trigger] s[a].serial@
                        != #[trigger] s[b].serial@ by {
                        let a2 = if a < i { a } else { a + 1 };
                        let b2 = if b < i { b } else { b + 1 };
                        assert(s[a] == o[a2] && s[b] == o[b2]);
                    }
                    let m = tokens_view(s);
                    let n = tokens_view(o).remove(serial@);
                    assert forall|k: Seq<char>| #[trigger] m.dom().contains(k) <==> n.dom().contains(k) by {
                        if has_serial(s, k) {
                            let j = choose|j: int| 0 <= j < s.len() && #[trigger] s[j].serial@ == k;
                            let j2 = if j < i { j } else { j + 1 };
                            assert(o[j2].serial@ == k);
                        }
                        if has_serial(o, k) && k != serial@ {
                            let j = choose|j: int| 0 <= j < o.len() && #[trigger] o[j].serial@ == k;
                            assert(j != i);
                            if j < i {
                                assert(s[j].serial@ == k);
                            } else {
                                assert(s[j - 1].serial@ == k);
                            }
                        }
                    }
                    assert forall|k: Seq<char>| #[trigger] m.dom().contains(k) implies m[k] == n[k] by {
                        let j = choose|j: int| 0 <= j < s.len() && #[trigger] s[j].serial@ == k;
                        let j2 = if j < i { j } else { j + 1 };
                        assert(o[j2] == s[j]);
                        let jo = choose|jo: int| 0 <= jo < o.len() && #[trigger] o[jo].serial@ == k;
                        if jo != j2 {
                            assert(o[jo].serial@ != o[j2].serial@);
                        }
                    }
                    assert(m =~= n);
                }
                true
            },
            None => {
                assert(self@ =~= old(self)@.remove(serial@));
                false
            },
        }
    }

    /// All stored tokens, for persisting.
    pub fn entries(&self) -> (r: Vec<TokenEntry>)
        ensures
            r@ == self.entries@,
    {
        let mut out: Vec<TokenEntry> = Vec::new();
        let mut i: usize = 0;
        while i < self.entries.len()
            invariant
                i <= self.entries.len(),
                out@ == self.entries@.subrange(0, i as int),
            decreases self.entries.len() - i,
        {
            let e = &self.entries[i];
            out.push(TokenEntry { serial: e.serial.clone(), token: e.token.clone() });
            assert(out@ =~= self.entries@.subrange(0, i + 1));
            i += 1;
        }
        assert(self.entries@.subrange(0, self.entries.len() as int) =~= self.entries@);
        out
    }
}

// ---------------------------------------------------------------------------
// Laws

/// A token read back after it was stored is the token stored, and storing
/// a token for one dongle leaves every other dongle's token as it was.
pub proof fn law_get_after_set(
    m: Map<Seq<char>, Seq<char>>,
    serial: Seq<char>,
    token: Seq<char>,
    other: Seq<char>,
)
    requires
        other != serial,
    ensures
        m.insert(serial, token).dom().contains(serial),
        m.insert(serial, token)[serial] == token,
        m.insert(serial, token).dom().contains(other) == m.dom().contains(other),
        m.dom().contains(other) ==> m.insert(serial, token)[other] == m[other],
{
}

/// After a dongle's token is forgotten nothing is held for it, and other
/// dongles keep theirs.
pub proof fn law_get_after_forget(m: Map<Seq<char>, Seq<char>>, serial: Seq<char>, other: Seq<char>)
    requires
        other != serial,
    ensures
        !m.remove(serial).dom().contains(serial),
        m.remove(serial).dom().contains(other) == m.dom().contains(other),
        m.dom().contains(other) ==> m.remove(serial)[other] == m[other],
{
}

} // verus!
