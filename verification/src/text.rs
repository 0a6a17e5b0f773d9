//! Character-level text utilities shared by the wire formats and the API:
//! whitespace trimming, substring search, decimal numbers.
use vstd::prelude::*;

verus! {

// ---------------------------------------------------------------------------
// Conversions between strings and character vectors

/// The characters of a string slice, in order.
pub fn chars_of(s: &str) -> (v: Vec<char>)
    ensures
        v@ == s@,
{
    let mut v: Vec<char> = Vec::new();
    for c in it: s.chars()
        invariant
            v@ == it.seq().take(it.index()),
    {
        v.push(c);
    }
    v
}

/// Appends one character to a string (`String::push`).
#[verifier::external_body]
pub(crate) fn push_char(s: &mut String, c: char)
    ensures
        final(s)@ == old(s)@.push(c),
{
    s.push(c);
}

/// The string made of the characters `v[lo..hi]`.
pub fn string_from_range(v: &Vec<char>, lo: usize, hi: usize) -> (s: String)
    requires
        lo <= hi <= v.len(),
    ensures
        s@ == v@.subrange(lo as int, hi as int),
{
    let mut s = String::new();
    let mut i = lo;
    while i < hi
        invariant
            lo <= i <= hi <= v.len(),
            s@ == v@.subrange(lo as int, i as int),
        decreases hi - i,
    {
        push_char(&mut s, v[i]);
        assert(v@.subrange(lo as int, i + 1) =~= v@.subrange(lo as int, i as int).push(v@[i as int]));
        i += 1;
    }
    s
}

/// The string made of all characters of `v`.
pub fn string_from_chars(v: &Vec<char>) -> (s: String)
    ensures
        s@ == v@,
{
    let s = string_from_range(v, 0, v.len());
    assert(v@.subrange(0, v.len() as int) =~= v@);
    s
}

/// Appends the characters `v[lo..hi]` to `s`.
pub fn push_range(s: &mut String, v: &Vec<char>, lo: usize, hi: usize)
    requires
        lo <= hi <= v.len(),
    ensures
        final(s)@ == old(s)@ + v@.subrange(lo as int, hi as int),
{
    let ghost start = s@;
    let mut i = lo;
    while i < hi
        invariant
            lo <= i <= hi <= v.len(),
            s@ == start + v@.subrange(lo as int, i as int),
        decreases hi - i,
    {
        push_char(s, v[i]);
        assert(v@.subrange(lo as int, i + 1) =~= v@.subrange(lo as int, i as int).push(v@[i as int]));
        i += 1;
    }
}

/// Appends a string slice to `s`.
pub fn push_str(s: &mut String, t: &str)
    ensures
        final(s)@ == old(s)@ + t@,
{
    let v = chars_of(t);
    push_range(s, &v, 0, v.len());
    assert(v@.subrange(0, v.len() as int) =~= v@);
}

/// Two strings hold the same characters.
pub fn same_text(a: &str, b: &str) -> (r: bool)
    ensures
        r == (a@ == b@),
{
    let x = chars_of(a);
    let y = chars_of(b);
    if x.len() != y.len() {
        return false;
    }
    let mut i: usize = 0;
    while i < x.len()
        invariant
            x.len() == y.len(),
            i <= x.len(),
            x@ == a@,
            y@ == b@,
            forall|j: int| 0 <= j < i ==> x@[j] == y@[j],
        decreases x.len() - i,
    {
        if x[i] != y[i] {
            return false;
        }
        i += 1;
    }
    assert(x@ =~= y@);
    true
}

// ---------------------------------------------------------------------------
// Whitespace

/// Unicode `White_Space`, the set `char::is_whitespace` tests for.
pub open spec fn is_ws(c: char) -> bool {
    let u = c as u32;
    (0x09 <= u <= 0x0d) || u == 0x20 || u == 0x85 || u == 0xa0 || u == 0x1680
        || (0x2000 <= u <= 0x200a) || u == 0x2028 || u == 0x2029 || u == 0x202f
        || u == 0x205f || u == 0x3000
}

/// Executable form of [`is_ws`].
pub fn is_whitespace(c: char) -> (r: bool)
    ensures
        r == is_ws(c),
{
    let u = c as u32;
    (0x09 <= u && u <= 0x0d) || u == 0x20 || u == 0x85 || u == 0xa0 || u == 0x1680
        || (0x2000 <= u && u <= 0x200a) || u == 0x2028 || u == 0x2029 || u == 0x202f
        || u == 0x205f || u == 0x3000
}

/// `s` without its leading whitespace.
pub open spec fn trim_start(s: Seq<char>) -> Seq<char>
    decreases s.len(),
{
    if s.len() > 0 && is_ws(s[0]) {
        trim_start(s.drop_first())
    } else {
        s
    }
}

/// `s` without its trailing whitespace.
pub open spec fn trim_end(s: Seq<char>) -> Seq<char>
    decreases s.len(),
{
    if s.len() > 0 && is_ws(s.last()) {
        trim_end(s.drop_last())
    } else {
        s
    }
}

/// `s` without leading and trailing whitespace (`str::trim`).
pub open spec fn trim(s: Seq<char>) -> Seq<char> {
    trim_end(trim_start(s))
}

/// Bounds of the trimmed part of `v[lo..hi]`.
pub fn trimmed_bounds(v: &Vec<char>, lo: usize, hi: usize) -> (r: (usize, usize))
    requires
        lo <= hi <= v.len(),
    ensures
        lo <= r.0 <= r.1 <= hi,
        v@.subrange(r.0 as int, r.1 as int) == trim(v@.subrange(lo as int, hi as int)),
{
    let mut i = lo;
    while i < hi && is_whitespace(v[i])
        invariant
            lo <= i <= hi <= v.len(),
            trim_start(v@.subrange(lo as int, hi as int)) == trim_start(
                v@.subrange(i as int, hi as int),
            ),
        decreases hi - i,
    {
        assert(v@.subrange(i as int, hi as int).drop_first() =~= v@.subrange(i + 1, hi as int));
        i += 1;
    }
    let mut j = hi;
    while j > i && is_whitespace(v[j - 1])
        invariant
            lo <= i <= j <= hi <= v.len(),
            trim_end(v@.subrange(i as int, hi as int)) == trim_end(v@.subrange(i as int, j as int)),
        decreases j - i,
    {
        assert(v@.subrange(i as int, j as int).drop_last() =~= v@.subrange(i as int, j - 1));
        j -= 1;
    }
    (i, j)
}

/// `str::trim` on the characters `v[lo..hi]`, as a new string.
pub fn trimmed_string(v: &Vec<char>, lo: usize, hi: usize) -> (s: String)
    requires
        lo <= hi <= v.len(),
    ensures
        s@ == trim(v@.subrange(lo as int, hi as int)),
{
    let (a, b) = trimmed_bounds(v, lo, hi);
    string_from_range(v, a, b)
}

/// `str::trim` of a whole string.
pub fn trim_string(s: &str) -> (r: String)
    ensures
        r@ == trim(s@),
{
    let v = chars_of(s);
    assert(v@.subrange(0, v.len() as int) =~= v@);
    trimmed_string(&v, 0, v.len())
}

// ---------------------------------------------------------------------------
// Substring search

/// `pat` occurs in `s` starting at index `i`.
pub open spec fn matches_at(s: Seq<char>, pat: Seq<char>, i: int) -> bool {
    0 <= i && i + pat.len() <= s.len() && s.subrange(i, i + pat.len()) == pat
}

/// The first index at or after `from` where `pat` occurs in `s`.
pub open spec fn first_match(s: Seq<char>, pat: Seq<char>, from: int) -> Option<int>
    decreases s.len() + 1 - from,
{
    if from < 0 || from + pat.len() > s.len() {
        None
    } else if matches_at(s, pat, from) {
        Some(from)
    } else {
        first_match(s, pat, from + 1)
    }
}

/// A found match really is one, and nothing earlier matches.
pub proof fn lemma_first_match(s: Seq<char>, pat: Seq<char>, from: int)
    ensures
        first_match(s, pat, from) matches Some(i) ==> from <= i && matches_at(s, pat, i)
            && i + pat.len() <= s.len(),
    decreases s.len() + 1 - from,
{
    if !(from < 0 || from + pat.len() > s.len()) && !matches_at(s, pat, from) {
        lemma_first_match(s, pat, from + 1);
    }
}

/// Executable [`first_match`]: `str::find` on `s[from..]`, offset by `from`.
pub fn find_from(s: &Vec<char>, pat: &Vec<char>, from: usize) -> (r: Option<usize>)
    ensures
        match r {
            Some(i) => first_match(s@, pat@, from as int) == Some(i as int),
            None => first_match(s@, pat@, from as int) is None,
        },
{
    if pat.len() > s.len() || from > s.len() - pat.len() {
        return None;
    }
    let last = s.len() - pat.len();
    let mut i = from;
    while i <= last
        invariant
            last + pat.len() == s.len(),
            from <= i,
            i <= last + 1,
            first_match(s@, pat@, from as int) == first_match(s@, pat@, i as int),
        decreases last + 1 - i,
    {
        let mut k: usize = 0;
        let mut same = true;
        while k < pat.len()
            invariant
                i <= last,
                last + pat.len() == s.len(),
                k <= pat.len(),
                same ==> forall|t: int| 0 <= t < k ==> s@[i + t] == pat@[t],
                !same ==> exists|t: int| 0 <= t < pat.len() && s@[i + t] != pat@[t],
            decreases pat.len() - k,
        {
            if s[i + k] != pat[k] {
                same = false;
            }
            k += 1;
        }
        if same {
            assert(s@.subrange(i as int, i + pat.len()) =~= pat@);
            return Some(i);
        }
        proof {
            let t = choose|t: int| 0 <= t < pat.len() && s@[i + t] != pat@[t];
            assert(s@.subrange(i as int, i + pat.len())[t] != pat@[t]);
        }
        i += 1;
    }
    None
}

/// `s` begins with `p`.
pub open spec fn has_prefix(s: Seq<char>, p: Seq<char>) -> bool {
    p.len() <= s.len() && s.subrange(0, p.len() as int) == p
}

/// Executable [`has_prefix`] (`str::starts_with`).
pub fn starts_with(s: &Vec<char>, p: &Vec<char>) -> (r: bool)
    ensures
        r == has_prefix(s@, p@),
{
    if p.len() > s.len() {
        return false;
    }
    let mut k: usize = 0;
    while k < p.len()
        invariant
            p.len() <= s.len(),
            k <= p.len(),
            forall|t: int| 0 <= t < k ==> s@[t] == p@[t],
        decreases p.len() - k,
    {
        if s[k] != p[k] {
            assert(s@.subrange(0, p.len() as int)[k as int] != p@[k as int]);
            return false;
        }
        k += 1;
    }
    assert(s@.subrange(0, p.len() as int) =~= p@);
    true
}

// ---------------------------------------------------------------------------
// Decimal numbers

/// An ASCII decimal digit.
pub open spec fn is_digit(c: char) -> bool {
    48 <= (c as u32) <= 57
}

/// Every character of `d` is a decimal digit.
pub open spec fn all_digits(d: Seq<char>) -> bool {
    forall|i: int| 0 <= i < d.len() ==> is_digit(#[trigger] d[i])
}

/// The value of a string of decimal digits.
pub open spec fn digits_value(d: Seq<char>) -> int
    decreases d.len(),
{
    if d.len() == 0 {
        0
    } else {
        digits_value(d.drop_last()) * 10 + ((d.last() as u32) - 48)
    }
}

/// Digits have a non-negative value.
pub proof fn lemma_digits_value_nonneg(d: Seq<char>)
    requires
        all_digits(d),
    ensures
        digits_value(d) >= 0,
    decreases d.len(),
{
    if d.len() > 0 {
        assert(is_digit(d[d.len() - 1]));
        lemma_digits_value_nonneg(d.drop_last());
    }
}

/// The text after an optional leading `+`.
pub open spec fn unsigned_body(s: Seq<char>) -> Seq<char> {
    if s.len() > 0 && s[0] == '+' {
        s.drop_first()
    } else {
        s
    }
}

/// What `str::parse::<u64>` gives for `s`: an optional `+`, then one or
/// more ASCII digits whose value fits.
pub open spec fn spec_parse_u64(s: Seq<char>) -> Option<u64> {
    let b = unsigned_body(s);
    if b.len() > 0 && all_digits(b) && digits_value(b) <= u64::MAX {
        Some(digits_value(b) as u64)
    } else {
        None
    }
}

/// What `str::parse::<i64>` gives for `s`: an optional sign, then one or
/// more ASCII digits whose signed value fits.
pub open spec fn spec_parse_i64(s: Seq<char>) -> Option<i64> {
    if s.len() > 0 && s[0] == '-' {
        let b = s.drop_first();
        if b.len() > 0 && all_digits(b) && digits_value(b) <= 0x8000_0000_0000_0000 {
            Some((-digits_value(b)) as i64)
        } else {
            None
        }
    } else {
        let b = unsigned_body(s);
        if b.len() > 0 && all_digits(b) && digits_value(b) <= i64::MAX {
            Some(digits_value(b) as i64)
        } else {
            None
        }
    }
}

/// The saturation point used while accumulating digits: 2^64.
pub open spec fn digit_cap() -> int {
    0x1_0000_0000_0000_0000
}

/// Value of the digits `v[lo..hi]`, saturated at 2^64; `None` when the
/// range is empty or holds a non-digit.
fn digits_saturating(v: &Vec<char>, lo: usize, hi: usize) -> (r: Option<u128>)
    requires
        lo <= hi <= v.len(),
    ensures
        match r {
            Some(x) => {
                &&& hi > lo
                &&& all_digits(v@.subrange(lo as int, hi as int))
                &&& x as int == if digits_value(v@.subrange(lo as int, hi as int)) < digit_cap() {
                    digits_value(v@.subrange(lo as int, hi as int))
                } else {
                    digit_cap()
                }
            },
            None => !(hi > lo && all_digits(v@.subrange(lo as int, hi as int))),
        },
{
    if lo == hi {
        return None;
    }
    let cap: u128 = 0x1_0000_0000_0000_0000;
    let mut acc: u128 = 0;
    let mut i = lo;
    while i < hi
        invariant
            lo <= i <= hi <= v.len(),
            cap == digit_cap(),
            all_digits(v@.subrange(lo as int, i as int)),
            acc <= cap,
            acc as int == if digits_value(v@.subrange(lo as int, i as int)) < digit_cap() {
                digits_value(v@.subrange(lo as int, i as int))
            } else {
                digit_cap()
            },
        decreases hi - i,
    {
        let c = v[i];
        let u = c as u32;
        if u < 48 || u > 57 {
            proof {
                assert(v@.subrange(lo as int, hi as int)[i - lo] == c);
            }
            return None;
        }
        let d = (u - 48) as u128;
        let next = acc * 10 + d;
        proof {
            let pre = v@.subrange(lo as int, i as int);
            let post = v@.subrange(lo as int, i + 1);
            assert(post.drop_last() =~= pre);
            assert(post.last() == c);
            assert(all_digits(post)) by {
                assert forall|t: int| 0 <= t < post.len() implies is_digit(#[trigger] post[t]) by {
                    if t < pre.len() {
                        assert(post[t] == pre[t]);
                    }
                }
            }
            lemma_digits_value_nonneg(pre);
            assert(digits_value(post) == digits_value(pre) * 10 + d);
        }
        acc = if next >= cap { cap } else { next };
        i += 1;
    }
    Some(acc)
}

/// `str::parse::<u64>` of the characters `v[lo..hi]`.
pub fn parse_u64_range(v: &Vec<char>, lo: usize, hi: usize) -> (r: Option<u64>)
    requires
        lo <= hi <= v.len(),
    ensures
        r == spec_parse_u64(v@.subrange(lo as int, hi as int)),
{
    let ghost s = v@.subrange(lo as int, hi as int);
    let mut start = lo;
    if lo < hi && v[lo] == '+' {
        start = lo + 1;
        assert(s.drop_first() =~= v@.subrange(start as int, hi as int));
    } else {
        assert(s =~= v@.subrange(start as int, hi as int));
    }
    match digits_saturating(v, start, hi) {
        Some(x) => {
            if x <= 0xffff_ffff_ffff_ffff {
                Some(x as u64)
            } else {
                None
            }
        },
        None => None,
    }
}

/// `str::parse::<i64>` of the characters `v[lo..hi]`.
pub fn parse_i64_range(v: &Vec<char>, lo: usize, hi: usize) -> (r: Option<i64>)
    requires
        lo <= hi <= v.len(),
    ensures
        r == spec_parse_i64(v@.subrange(lo as int, hi as int)),
{
    let ghost s = v@.subrange(lo as int, hi as int);
    if lo < hi && v[lo] == '-' {
        assert(s.drop_first() =~= v@.subrange(lo + 1, hi as int));
        match digits_saturating(v, lo + 1, hi) {
            Some(x) => {
                if x <= 0x8000_0000_0000_0000 {
                    let m = x as i128;
                    Some((-m) as i64)
                } else {
                    None
                }
            },
            None => None,
        }
    } else {
        let mut start = lo;
        if lo < hi && v[lo] == '+' {
            start = lo + 1;
            assert(s.drop_first() =~= v@.subrange(start as int, hi as int));
        } else {
            assert(s =~= v@.subrange(start as int, hi as int));
        }
        match digits_saturating(v, start, hi) {
            Some(x) => {
                if x <= 0x7fff_ffff_ffff_ffff {
                    Some(x as i64)
                } else {
                    None
                }
            },
            None => None,
        }
    }
}

/// The ASCII digit for `d < 10`.
pub open spec fn digit_char(d: int) -> char {
    (d + 48) as char
}

/// The shortest decimal spelling of `n` (what `{}` prints for an integer).
pub open spec fn dec_digits(n: nat) -> Seq<char>
    decreases n,
{
    if n < 10 {
        seq![digit_char(n as int)]
    } else {
        dec_digits(n / 10).push(digit_char((n % 10) as int))
    }
}

/// The decimal spelling of `n` is a non-empty string of digits whose value
/// is `n`.
pub proof fn lemma_dec_digits(n: nat)
    ensures
        dec_digits(n).len() > 0,
        all_digits(dec_digits(n)),
        digits_value(dec_digits(n)) == n,
    decreases n,
{
    if n < 10 {
        let d = dec_digits(n);
        assert(d.drop_last() =~= Seq::<char>::empty());
        assert(digit_char(n as int) as u32 == n + 48);
        assert(digits_value(d.drop_last()) == 0);
        assert(d.last() == digit_char(n as int));
    } else {
        lemma_dec_digits(n / 10);
        let d = dec_digits(n);
        assert(d.drop_last() =~= dec_digits(n / 10));
        assert(digit_char((n % 10) as int) as u32 == n % 10 + 48);
        assert(d.last() == digit_char((n % 10) as int));
        assert(digits_value(d) == digits_value(dec_digits(n / 10)) * 10 + (n % 10));
        assert((n / 10) * 10 + n % 10 == n);
        assert forall|i: int| 0 <= i < d.len() implies is_digit(#[trigger] d[i]) by {
            if i < d.len() - 1 {
                assert(d[i] == dec_digits(n / 10)[i]);
            }
        }
    }
}

/// The decimal spelling of a signed integer.
pub open spec fn dec_signed(n: int) -> Seq<char> {
    if n < 0 {
        seq!['-'] + dec_digits((-n) as nat)
    } else {
        dec_digits(n as nat)
    }
}

fn digit_to_char(d: u64) -> (c: char)
    requires
        d < 10,
    ensures
        c == digit_char(d as int),
{
    let b = (48 + d) as u8;
    b as char
}

/// Decimal spelling of `n`.
pub fn u64_to_dec(n: u64) -> (v: Vec<char>)
    ensures
        v@ == dec_digits(n as nat),
    decreases n,
{
    if n < 10 {
        let mut v = Vec::new();
        v.push(digit_to_char(n));
        assert(v@ =~= seq![digit_char(n as int)]);
        v
    } else {
        let mut v = u64_to_dec(n / 10);
        v.push(digit_to_char(n % 10));
        v
    }
}

/// Appends the decimal spelling of `n` to `s`.
pub fn push_u64(s: &mut String, n: u64)
    ensures
        final(s)@ == old(s)@ + dec_digits(n as nat),
{
    let v = u64_to_dec(n);
    push_range(s, &v, 0, v.len());
    assert(v@.subrange(0, v.len() as int) =~= v@);
}

/// Appends the decimal spelling of a signed `n` to `s`.
pub fn push_i64(s: &mut String, n: i64)
    ensures
        final(s)@ == old(s)@ + dec_signed(n as int),
{
    if n < 0 {
        let ghost before = s@;
        push_char(s, '-');
        let m = (-(n as i128)) as u64;
        push_u64(s, m);
        assert(s@ =~= before + dec_signed(n as int));
    } else {
        push_u64(s, n as u64);
    }
}

} // verus!
