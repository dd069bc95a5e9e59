//! Character-level string helpers shared by the whole library: conversion
//! between `str`/`String` and character sequences, prefix and substring
//! search, Unicode whitespace trimming, decimal formatting and parsing.

use vstd::prelude::*;

verus! {

// ───────────────────────── specifications ─────────────────────────

/// `p` is a prefix of `s`.
pub open spec fn is_prefix(p: Seq<char>, s: Seq<char>) -> bool {
    p.len() <= s.len() && s.take(p.len() as int) == p
}

/// `p` occurs in `s` starting at position `i`.
pub open spec fn occurs_at(s: Seq<char>, p: Seq<char>, i: int) -> bool {
    0 <= i && i + p.len() <= s.len() && s.subrange(i, i + p.len()) == p
}

/// `p` occurs somewhere in `s`.
pub open spec fn contains_seq(s: Seq<char>, p: Seq<char>) -> bool {
    exists|i: int| #[trigger] occurs_at(s, p, i)
}

/// Position of the first occurrence of `p` in `s`, if any.
pub open spec fn first_occurrence(s: Seq<char>, p: Seq<char>) -> Option<int> {
    if contains_seq(s, p) {
        Some(choose|i: int| occurs_at(s, p, i) && forall|j: int| 0 <= j < i ==> !occurs_at(s, p, j))
    } else {
        None
    }
}

/// The Unicode `White_Space` characters, which is what `char::is_whitespace`
/// recognises.
pub open spec fn is_ws(c: char) -> bool {
    ||| ('\u{9}' <= c && c <= '\u{d}')
    ||| c == ' '
    ||| c == '\u{85}'
    ||| c == '\u{a0}'
    ||| c == '\u{1680}'
    ||| ('\u{2000}' <= c && c <= '\u{200a}')
    ||| c == '\u{2028}'
    ||| c == '\u{2029}'
    ||| c == '\u{202f}'
    ||| c == '\u{205f}'
    ||| c == '\u{3000}'
}

/// `s` without its leading whitespace.
pub open spec fn trim_start_spec(s: Seq<char>) -> Seq<char>
    decreases s.len(),
{
    if s.len() > 0 && is_ws(s[0]) {
        trim_start_spec(s.drop_first())
    } else {
        s
    }
}

/// `s` without its trailing whitespace.
pub open spec fn trim_end_spec(s: Seq<char>) -> Seq<char>
    decreases s.len(),
{
    if s.len() > 0 && is_ws(s.last()) {
        trim_end_spec(s.drop_last())
    } else {
        s
    }
}

/// `s` without leading and trailing whitespace (what `str::trim` returns).
pub open spec fn trim_spec(s: Seq<char>) -> Seq<char> {
    trim_end_spec(trim_start_spec(s))
}

/// The ASCII digit character for `d < 10`.
pub open spec fn digit_char(d: nat) -> char {
    (48 + d) as char
}

pub open spec fn is_digit(c: char) -> bool {
    '0' <= c && c <= '9'
}

/// Decimal digits of a natural number, most significant first, without
/// leading zeros (zero is "0").
pub open spec fn nat_digits(n: nat) -> Seq<char>
    decreases n,
{
    if n < 10 {
        seq![digit_char(n)]
    } else {
        nat_digits(n / 10).push(digit_char(n % 10))
    }
}

/// Decimal rendering of an integer, as `Display` prints integers.
pub open spec fn int_text(i: int) -> Seq<char> {
    if i < 0 {
        seq!['-'] + nat_digits((-i) as nat)
    } else {
        nat_digits(i as nat)
    }
}

/// Value of a sequence of ASCII digits.
pub open spec fn digits_value(ds: Seq<char>) -> nat
    decreases ds.len(),
{
    if ds.len() == 0 {
        0
    } else {
        digits_value(ds.drop_last()) * 10 + ((ds.last() as int - 48) as nat)
    }
}

pub open spec fn all_digits(ds: Seq<char>) -> bool {
    forall|i: int| 0 <= i < ds.len() ==> is_digit(#[trigger] ds[i])
}

/// The digits part of an unsigned integer literal with an optional `+`.
pub open spec fn unsigned_body(s: Seq<char>) -> Seq<char> {
    if s.len() > 0 && s[0] == '+' {
        s.drop_first()
    } else {
        s
    }
}

/// What `u64::from_str` accepts and returns: an optional `+`, then at least
/// one ASCII digit and nothing else, with a value that fits in 64 bits.
pub open spec fn parse_u64_spec(s: Seq<char>) -> Option<u64> {
    let body = unsigned_body(s);
    if body.len() > 0 && all_digits(body) && digits_value(body) <= u64::MAX {
        Some(digits_value(body) as u64)
    } else {
        None
    }
}

/// What `i64::from_str` accepts and returns: an optional sign, then at
/// least one ASCII digit and nothing else, with a value that fits in 64 bits.
pub open spec fn parse_i64_spec(s: Seq<char>) -> Option<i64> {
    if s.len() > 0 && s[0] == '-' {
        let body = s.drop_first();
        if body.len() > 0 && all_digits(body) && digits_value(body) <= 0x8000_0000_0000_0000 {
            Some((-digits_value(body)) as i64)
        } else {
            None
        }
    } else {
        let body = unsigned_body(s);
        if body.len() > 0 && all_digits(body) && digits_value(body) <= i64::MAX {
            Some(digits_value(body) as i64)
        } else {
            None
        }
    }
}

/// Sequences joined with a separator between consecutive items.
pub open spec fn join_spec(items: Seq<Seq<char>>, sep: Seq<char>) -> Seq<char>
    decreases items.len(),
{
    if items.len() == 0 {
        Seq::empty()
    } else if items.len() == 1 {
        items[0]
    } else {
        join_spec(items.drop_last(), sep) + sep + items.last()
    }
}

// ───────────────────────── lemmas ─────────────────────────

pub proof fn lemma_nat_digits_nonempty(n: nat)
    ensures
        nat_digits(n).len() >= 1,
    decreases n,
{
    if n >= 10 {
        lemma_nat_digits_nonempty(n / 10);
    }
}

/// The decimal digits of `n` are digits and read back as `n`.
pub proof fn lemma_nat_digits_value(n: nat)
    ensures
        nat_digits(n).len() >= 1,
        all_digits(nat_digits(n)),
        digits_value(nat_digits(n)) == n,
    decreases n,
{
    let d = digit_char(n % 10);
    assert((d as int) == 48 + n % 10);
    if n >= 10 {
        lemma_nat_digits_value(n / 10);
        let s = nat_digits(n);
        assert(s.drop_last() =~= nat_digits(n / 10));
        assert(s.last() == d);
        assert(digits_value(s) == digits_value(s.drop_last()) * 10 + ((s.last() as int - 48) as nat));
        assert(n == (n / 10) * 10 + n % 10);
        assert forall|i: int| 0 <= i < s.len() implies is_digit(#[trigger] s[i]) by {
            if i < s.len() - 1 {
                assert(s[i] == nat_digits(n / 10)[i]);
            }
        }
    } else {
        let s = nat_digits(n);
        assert(s.drop_last() =~= Seq::<char>::empty());
        assert(digits_value(s) == digits_value(s.drop_last()) * 10 + ((s.last() as int - 48) as nat));
    }
}

/// `i64::from_str` reads back what `int_text` writes.
pub proof fn lemma_int_text_parses(x: i64)
    ensures
        parse_i64_spec(int_text(x as int)) == Some(x),
        forall|k: int| 0 <= k < int_text(x as int).len() ==>
            is_digit(#[trigger] int_text(x as int)[k]) || int_text(x as int)[k] == '-',
{
    if x < 0 {
        let n: nat = (-(x as int)) as nat;
        lemma_nat_digits_value(n);
        let t = int_text(x as int);
        assert(t.drop_first() =~= nat_digits(n));
        assert forall|k: int| 0 <= k < t.len() implies is_digit(#[trigger] t[k]) || t[k] == '-' by {
            if k > 0 {
                assert(t[k] == nat_digits(n)[k - 1]);
            }
        }
    } else {
        let n: nat = x as nat;
        lemma_nat_digits_value(n);
        let t = int_text(x as int);
        assert(is_digit(t[0]));
        assert(unsigned_body(t) == t);
    }
}

/// `u64::from_str` reads back what `int_text` writes.
pub proof fn lemma_u64_text_parses(x: u64)
    ensures
        parse_u64_spec(int_text(x as int)) == Some(x),
{
    let n: nat = x as nat;
    lemma_nat_digits_value(n);
    let t = int_text(x as int);
    assert(is_digit(t[0]));
    assert(unsigned_body(t) == t);
}

proof fn lemma_digits_value_grows(ds: Seq<char>, i: int)
    requires
        0 <= i <= ds.len(),
        all_digits(ds),
    ensures
        digits_value(ds.take(i)) <= digits_value(ds),
    decreases ds.len() - i,
{
    if i < ds.len() {
        lemma_digits_value_grows(ds, i + 1);
        let t = ds.take(i + 1);
        assert(t.drop_last() =~= ds.take(i));
        assert(is_digit(ds[i]));
    } else {
        assert(ds.take(i) =~= ds);
    }
}

// ───────────────────────── executable helpers ─────────────────────────

/// Appends one character to a `String` (`String::push`).
#[verifier::external_body]
pub(crate) fn push_char(s: &mut String, c: char)
    ensures
        final(s)@ == old(s)@.push(c),
{
    s.push(c);
}

/// The characters of `s`, in order.
pub fn chars_of(s: &str) -> (v: Vec<char>)
    ensures
        v@ == s@,
{
    let mut v: Vec<char> = Vec::new();
    for c in it: s.chars()
        invariant
            v@ == it.seq().take(it.index() as int),
            it.seq() == s@,
    {
        v.push(c);
    }
    v
}

/// Appends the characters of `cs` to `out`.
pub fn push_chars(out: &mut String, cs: &[char])
    ensures
        final(out)@ == old(out)@ + cs@,
{
    let n = cs.len();
    for i in 0..n
        invariant
            n == cs@.len(),
            out@ == old(out)@ + cs@.take(i as int),
    {
        push_char(out, cs[i]);
        assert(cs@.take(i + 1) =~= cs@.take(i as int).push(cs@[i as int]));
    }
    assert(cs@.take(n as int) =~= cs@);
}

/// Appends `s` to `out`.
pub fn push_str(out: &mut String, s: &str)
    ensures
        final(out)@ == old(out)@ + s@,
{
    let cs = chars_of(s);
    push_chars(out, cs.as_slice());
}

/// A `String` holding the characters of `cs`.
pub fn string_of(cs: &[char]) -> (s: String)
    ensures
        s@ == cs@,
{
    let mut s = String::new();
    push_chars(&mut s, cs);
    s
}

/// A `String` copy of `s`.
pub fn owned(s: &str) -> (r: String)
    ensures
        r@ == s@,
{
    let mut r = String::new();
    push_str(&mut r, s);
    r
}

/// Equality of two character slices.
pub fn chars_eq(a: &[char], b: &[char]) -> (r: bool)
    ensures
        r == (a@ == b@),
{
    if a.len() != b.len() {
        return false;
    }
    let n = a.len();
    for i in 0..n
        invariant
            n == a@.len(),
            n == b@.len(),
            forall|j: int| 0 <= j < i ==> a@[j] == b@[j],
    {
        if a[i] != b[i] {
            return false;
        }
    }
    assert(a@ =~= b@);
    true
}

/// Equality of two strings, character by character.
pub fn str_eq(a: &str, b: &str) -> (r: bool)
    ensures
        r == (a@ == b@),
{
    let ca = chars_of(a);
    let cb = chars_of(b);
    chars_eq(ca.as_slice(), cb.as_slice())
}

/// `p` occurs in `s` at position `at`.
pub fn occurs_at_exec(s: &[char], p: &[char], at: usize) -> (r: bool)
    ensures
        r == occurs_at(s@, p@, at as int),
{
    if at > s.len() || p.len() > s.len() - at {
        return false;
    }
    let n = p.len();
    for j in 0..n
        invariant
            n == p@.len(),
            at + n <= s.len(),
            j <= n,
            forall|k: int| 0 <= k < j ==> s@[at + k] == p@[k],
    {
        assert(at + j < s@.len());
        if s[at + j] != p[j] {
            assert(s@.subrange(at as int, at + n)[j as int] != p@[j as int]);
            return false;
        }
    }
    assert(s@.subrange(at as int, at + n) =~= p@);
    true
}

/// `p` is a prefix of `s`.
pub fn starts_with_chars(s: &[char], p: &[char]) -> (r: bool)
    ensures
        r == is_prefix(p@, s@),
{
    let r = occurs_at_exec(s, p, 0);
    proof {
        if p@.len() <= s@.len() {
            assert(s@.subrange(0, p@.len() as int) =~= s@.take(p@.len() as int));
        }
    }
    r
}

/// `p` is a prefix of `s` (`str::starts_with` with a string pattern).
pub fn starts_with(s: &str, p: &str) -> (r: bool)
    ensures
        r == is_prefix(p@, s@),
{
    let cs = chars_of(s);
    let cp = chars_of(p);
    starts_with_chars(cs.as_slice(), cp.as_slice())
}

/// Position of the first occurrence of `p` in `s` (`str::find`, counted in
/// characters).
pub fn find_chars(s: &[char], p: &[char]) -> (r: Option<usize>)
    ensures
        match r {
            Some(i) => first_occurrence(s@, p@) == Some(i as int),
            None => first_occurrence(s@, p@) is None,
        },
{
    if p.len() > s.len() {
        assert(!contains_seq(s@, p@));
        return None;
    }
    let last = s.len() - p.len();
    let mut i: usize = 0;
    loop
        invariant
            last == s@.len() - p@.len(),
            i <= last,
            forall|j: int| 0 <= j < i ==> !occurs_at(s@, p@, j),
        decreases last - i,
    {
        if occurs_at_exec(s, p, i) {
            proof {
                assert(contains_seq(s@, p@));
                let w = choose|k: int| occurs_at(s@, p@, k) && forall|j: int| 0 <= j < k ==> !occurs_at(s@, p@, j);
                assert(occurs_at(s@, p@, w) && forall|j: int| 0 <= j < w ==> !occurs_at(s@, p@, j));
                if w < i {
                    assert(!occurs_at(s@, p@, w));
                }
                if w > i {
                    assert(!occurs_at(s@, p@, i as int));
                }
            }
            return Some(i);
        }
        if i == last {
            assert(!contains_seq(s@, p@)) by {
                if contains_seq(s@, p@) {
                    let k = choose|k: int| occurs_at(s@, p@, k);
                    assert(occurs_at(s@, p@, k));
                }
            }
            return None;
        }
        i = i + 1;
    }
}

/// The first occurrence, when there is one, lies inside `s`.
pub proof fn lemma_first_occurrence_bounds(s: Seq<char>, p: Seq<char>)
    ensures
        first_occurrence(s, p) matches Some(i) ==> 0 <= i <= s.len() && occurs_at(s, p, i),
{
    if contains_seq(s, p) {
        let w = choose|k: int| occurs_at(s, p, k);
        assert(occurs_at(s, p, w));
        lemma_least_occurrence(s, p, w);
    }
}

/// When `p` occurs at `k`, an earliest occurrence exists.
proof fn lemma_least_occurrence(s: Seq<char>, p: Seq<char>, k: int)
    requires
        occurs_at(s, p, k),
    ensures
        exists|i: int| occurs_at(s, p, i) && forall|j: int| 0 <= j < i ==> !occurs_at(s, p, j),
    decreases k,
{
    if exists|j: int| 0 <= j < k && occurs_at(s, p, j) {
        let j = choose|j: int| 0 <= j < k && occurs_at(s, p, j);
        lemma_least_occurrence(s, p, j);
    } else {
        assert(occurs_at(s, p, k) && forall|j: int| 0 <= j < k ==> !occurs_at(s, p, j));
    }
}

/// `p` occurs in `s` (`str::contains` with a string pattern).
pub fn contains(s: &str, p: &str) -> (r: bool)
    ensures
        r == contains_seq(s@, p@),
{
    let cs = chars_of(s);
    let cp = chars_of(p);
    let f = find_chars(cs.as_slice(), cp.as_slice());
    f.is_some()
}

/// Whitespace test (`char::is_whitespace`).
pub fn is_whitespace(c: char) -> (r: bool)
    ensures
        r == is_ws(c),
{
    ('\u{9}' <= c && c <= '\u{d}') || c == ' ' || c == '\u{85}' || c == '\u{a0}'
        || c == '\u{1680}' || ('\u{2000}' <= c && c <= '\u{200a}') || c == '\u{2028}'
        || c == '\u{2029}' || c == '\u{202f}' || c == '\u{205f}' || c == '\u{3000}'
}

proof fn lemma_trim_start_skip(s: Seq<char>, i: int)
    requires
        0 <= i <= s.len(),
        forall|j: int| 0 <= j < i ==> is_ws(#[trigger] s[j]),
    ensures
        trim_start_spec(s) == trim_start_spec(s.skip(i)),
    decreases i,
{
    if i > 0 {
        assert(is_ws(s[0]));
        let t = s.drop_first();
        assert forall|j: int| 0 <= j < i - 1 implies is_ws(#[trigger] t[j]) by {
            assert(t[j] == s[j + 1]);
        }
        lemma_trim_start_skip(t, i - 1);
        assert(t.skip(i - 1) =~= s.skip(i));
    } else {
        assert(s.skip(0) =~= s);
    }
}

proof fn lemma_trim_end_take(s: Seq<char>, k: int)
    requires
        0 <= k <= s.len(),
        forall|j: int| k <= j < s.len() ==> is_ws(#[trigger] s[j]),
    ensures
        trim_end_spec(s) == trim_end_spec(s.take(k)),
    decreases s.len() - k,
{
    if k < s.len() {
        assert(is_ws(s[s.len() - 1]));
        let t = s.drop_last();
        assert forall|j: int| k <= j < t.len() implies is_ws(#[trigger] t[j]) by {
            assert(t[j] == s[j]);
        }
        lemma_trim_end_take(t, k);
        assert(t.take(k) =~= s.take(k));
    } else {
        assert(s.take(k) =~= s);
    }
}

/// `cs` without leading and trailing whitespace (`str::trim`).
pub fn trim_chars(cs: &[char]) -> (r: Vec<char>)
    ensures
        r@ == trim_spec(cs@),
{
    let n = cs.len();
    let mut start: usize = 0;
    while start < n && is_whitespace(cs[start])
        invariant
            n == cs@.len(),
            start <= n,
            forall|j: int| 0 <= j < start ==> is_ws(#[trigger] cs@[j]),
        decreases n - start,
    {
        start = start + 1;
    }
    proof {
        lemma_trim_start_skip(cs@, start as int);
    }
    let ghost rest = cs@.skip(start as int);
    assert(trim_start_spec(rest) == rest) by {
        if rest.len() > 0 {
            assert(rest[0] == cs@[start as int]);
        }
    }
    let mut end: usize = n;
    while end > start && is_whitespace(cs[end - 1])
        invariant
            n == cs@.len(),
            start <= end <= n,
            rest == cs@.skip(start as int),
            forall|j: int| end - start <= j < rest.len() ==> is_ws(#[trigger] rest[j]),
        decreases end - start,
    {
        end = end - 1;
    }
    proof {
        lemma_trim_end_take(rest, end - start);
        let kept = rest.take(end - start);
        if kept.len() > 0 {
            assert(kept.last() == cs@[end - 1]);
        }
    }
    let mut r: Vec<char> = Vec::new();
    let mut i = start;
    while i < end
        invariant
            n == cs@.len(),
            start <= i <= end <= n,
            r@ == cs@.subrange(start as int, i as int),
        decreases end - i,
    {
        r.push(cs[i]);
        assert(cs@.subrange(start as int, i + 1) =~= cs@.subrange(start as int, i as int).push(cs@[i as int]));
        i = i + 1;
    }
    assert(r@ =~= rest.take(end - start));
    r
}

/// `s` without leading and trailing whitespace, as an owned `String`.
pub fn trim(s: &str) -> (r: String)
    ensures
        r@ == trim_spec(s@),
{
    let cs = chars_of(s);
    let t = trim_chars(cs.as_slice());
    string_of(t.as_slice())
}

/// The ASCII digit for `d`.
pub fn digit(d: u64) -> (c: char)
    requires
        d < 10,
    ensures
        c == digit_char(d as nat),
{
    let b: u8 = 48u8 + (d as u8);
    b as char
}

/// Appends the decimal digits of `n` to `out`.
pub fn push_digits(out: &mut Vec<char>, n: u64)
    ensures
        final(out)@ == old(out)@ + nat_digits(n as nat),
    decreases n,
{
    if n >= 10 {
        push_digits(out, n / 10);
    }
    out.push(digit(n % 10));
    proof {
        if n >= 10 {
            assert(nat_digits(n as nat) == nat_digits((n / 10) as nat).push(digit_char((n % 10) as nat)));
        }
    }
}

/// Decimal text of an unsigned integer.
pub fn u64_text(n: u64) -> (r: Vec<char>)
    ensures
        r@ == int_text(n as int),
{
    let mut r: Vec<char> = Vec::new();
    push_digits(&mut r, n);
    assert(r@ =~= nat_digits(n as nat));
    r
}

/// Decimal text of a signed integer (`i64` as `Display` prints it).
pub fn i64_text(x: i64) -> (r: Vec<char>)
    ensures
        r@ == int_text(x as int),
{
    let mut r: Vec<char> = Vec::new();
    if x < 0 {
        r.push('-');
        let m: u64 = if x == i64::MIN {
            0x8000_0000_0000_0000u64
        } else {
            (-x) as u64
        };
        push_digits(&mut r, m);
        assert(r@ =~= seq!['-'] + nat_digits((-(x as int)) as nat));
    } else {
        push_digits(&mut r, x as u64);
        assert(r@ =~= nat_digits(x as nat));
    }
    r
}

/// Appends the decimal text of `x` to `out`.
pub fn push_i64(out: &mut String, x: i64)
    ensures
        final(out)@ == old(out)@ + int_text(x as int),
{
    let t = i64_text(x);
    push_chars(out, t.as_slice());
}

/// Appends the decimal text of `x` to `out`.
pub fn push_u64(out: &mut String, x: u64)
    ensures
        final(out)@ == old(out)@ + int_text(x as int),
{
    let t = u64_text(x);
    push_chars(out, t.as_slice());
}

/// Parses the ASCII digits `ds` as an unsigned value, `None` when a
/// character is not a digit or the value exceeds `limit`.
fn digits_to_u64(ds: &[char], limit: u64) -> (r: Option<u64>)
    requires
        limit >= 9,
    ensures
        match r {
            Some(v) => all_digits(ds@) && digits_value(ds@) <= limit && v == digits_value(ds@),
            None => !(all_digits(ds@) && digits_value(ds@) <= limit),
        },
{
    let n = ds.len();
    let mut acc: u64 = 0;
    for i in 0..n
        invariant
            n == ds@.len(),
            all_digits(ds@.take(i as int)),
            acc == digits_value(ds@.take(i as int)),
            acc <= limit,
            limit >= 9,
    {
        let c = ds[i];
        if !('0' <= c && c <= '9') {
            assert(!is_digit(ds@[i as int]));
            return None;
        }
        let cu: u32 = c as u32;
        assert(48 <= cu <= 57);
        let d: u64 = (cu - 48) as u64;
        assert(d <= 9);
        let ghost t = ds@.take(i + 1);
        assert(t.drop_last() =~= ds@.take(i as int));
        assert(all_digits(t)) by {
            assert forall|j: int| 0 <= j < t.len() implies is_digit(#[trigger] t[j]) by {
                if j < i {
                    assert(t[j] == ds@.take(i as int)[j]);
                }
            }
        }
        if acc > (limit - d) / 10 {
            proof {
                assert(digits_value(t) == acc * 10 + d);
                if all_digits(ds@) {
                    lemma_digits_value_grows(ds@, i + 1);
                }
            }
            return None;
        }
        acc = acc * 10 + d;
    }
    assert(ds@.take(n as int) =~= ds@);
    Some(acc)
}

/// `u64::from_str`: an optional `+`, then one or more ASCII digits.
pub fn parse_u64(s: &str) -> (r: Option<u64>)
    ensures
        r == parse_u64_spec(s@),
{
    let cs = chars_of(s);
    let body: &[char] = if cs.len() > 0 && cs[0] == '+' {
        assert(cs@.subrange(1, cs@.len() as int) =~= cs@.drop_first());
        slice_from(cs.as_slice(), 1)
    } else {
        cs.as_slice()
    };
    assert(body@ == unsigned_body(s@));
    if body.len() == 0 {
        return None;
    }
    digits_to_u64(body, u64::MAX)
}

/// `i64::from_str`: an optional sign, then one or more ASCII digits.
pub fn parse_i64(s: &str) -> (r: Option<i64>)
    ensures
        r == parse_i64_spec(s@),
{
    let cs = chars_of(s);
    if cs.len() > 0 && cs[0] == '-' {
        let body = slice_from(cs.as_slice(), 1);
        assert(body@ =~= s@.drop_first());
        if body.len() == 0 {
            return None;
        }
        match digits_to_u64(body, 0x8000_0000_0000_0000u64) {
            Some(v) => {
                if v == 0x8000_0000_0000_0000u64 {
                    Some(i64::MIN)
                } else {
                    Some(-(v as i64))
                }
            },
            None => None,
        }
    } else {
        let body: &[char] = if cs.len() > 0 && cs[0] == '+' {
            slice_from(cs.as_slice(), 1)
        } else {
            cs.as_slice()
        };
        assert(body@ =~= unsigned_body(s@));
        if body.len() == 0 {
            return None;
        }
        match digits_to_u64(body, 0x7fff_ffff_ffff_ffffu64) {
            Some(v) => Some(v as i64),
            None => None,
        }
    }
}

/// The elements of `s` from position `from` on.
pub fn slice_from(s: &[char], from: usize) -> (r: &[char])
    requires
        from <= s@.len(),
    ensures
        r@ == s@.subrange(from as int, s@.len() as int),
{
    let n = s.len();
    &s[from..n]
}

// ───────────────────────── single characters ─────────────────────────

/// Position of the first `c` in `s`, if any.
#[verifier::opaque]
pub open spec fn index_of(s: Seq<char>, c: char) -> Option<int> {
    if s.contains(c) {
        Some(choose|i: int| 0 <= i < s.len() && s[i] == c && forall|j: int| 0 <= j < i ==> s[j] != c)
    } else {
        None
    }
}

pub proof fn lemma_index_of_first(s: Seq<char>, c: char, i: int)
    requires
        0 <= i < s.len(),
        s[i] == c,
        forall|j: int| 0 <= j < i ==> s[j] != c,
    ensures
        index_of(s, c) == Some(i),
{
    reveal(index_of);
    assert(s.contains(c));
    let w = choose|k: int| 0 <= k < s.len() && s[k] == c && forall|j: int| 0 <= j < k ==> s[j] != c;
    if w < i {
        assert(s[w] != c);
    }
    if w > i {
        assert(s[i] != c);
    }
}

pub proof fn lemma_index_of_none(s: Seq<char>, c: char)
    requires
        !s.contains(c),
    ensures
        index_of(s, c) is None,
{
    reveal(index_of);
}

/// Position of the first `c` in `s` from `from` on.
pub fn index_from(s: &[char], from: usize, c: char) -> (r: Option<usize>)
    requires
        from <= s@.len(),
    ensures
        match r {
            Some(i) => from <= i < s.len() && index_of(s@.skip(from as int), c) == Some(i - from),
            None => index_of(s@.skip(from as int), c) is None,
        },
{
    let ghost rest = s@.skip(from as int);
    let n = s.len();
    let mut i = from;
    proof {
        reveal(index_of);
    }
    while i < n
        invariant
            n == s@.len(),
            from <= i <= n,
            rest == s@.skip(from as int),
            forall|j: int| 0 <= j < i - from ==> rest[j] != c,
        decreases n - i,
    {
        if s[i] == c {
            proof {
                reveal(index_of);
                assert(rest[i - from] == c);
                assert(rest.contains(c));
                let w = choose|k: int| 0 <= k < rest.len() && rest[k] == c && forall|j: int| 0 <= j < k ==> rest[j] != c;
                if w < i - from {
                    assert(rest[w] != c);
                }
                if w > i - from {
                    assert(rest[i - from] != c);
                }
            }
            return Some(i);
        }
        i = i + 1;
    }
    proof {
        reveal(index_of);
        if rest.contains(c) {
            let k = choose|k: int| 0 <= k < rest.len() && rest[k] == c;
            assert(rest[k] != c);
        }
    }
    None
}

/// Copy of `s[from..to]`.
pub fn copy_range(s: &[char], from: usize, to: usize) -> (r: Vec<char>)
    requires
        from <= to <= s@.len(),
    ensures
        r@ == s@.subrange(from as int, to as int),
{
    let mut r: Vec<char> = Vec::new();
    let mut i = from;
    while i < to
        invariant
            from <= i <= to <= s@.len(),
            r@ == s@.subrange(from as int, i as int),
        decreases to - i,
    {
        r.push(s[i]);
        assert(s@.subrange(from as int, i + 1) =~= s@.subrange(from as int, i as int).push(s@[i as int]));
        i = i + 1;
    }
    r
}

// ───────────────────────── lists of texts ─────────────────────────

/// The views of a list of texts.
pub open spec fn views(v: Seq<&str>) -> Seq<Seq<char>> {
    v.map_values(|s: &str| s@)
}

/// Some text of `list` is a prefix of `s`.
pub open spec fn has_prefix_in(list: Seq<Seq<char>>, s: Seq<char>) -> bool {
    exists|i: int| 0 <= i < list.len() && is_prefix(#[trigger] list[i], s)
}

/// `s` starts with one of the texts of `list`.
pub fn starts_with_any(list: &Vec<&str>, s: &str) -> (r: bool)
    ensures
        r == has_prefix_in(views(list@), s@),
{
    let n = list.len();
    for i in 0..n
        invariant
            n == list@.len(),
            forall|j: int| 0 <= j < i ==> !is_prefix(#[trigger] views(list@)[j], s@),
    {
        if starts_with(s, list[i]) {
            assert(is_prefix(views(list@)[i as int], s@));
            return true;
        }
    }
    false
}

/// `s` is one of the texts of `list`.
pub fn is_one_of(list: &Vec<&str>, s: &str) -> (r: bool)
    ensures
        r == views(list@).contains(s@),
{
    let n = list.len();
    for i in 0..n
        invariant
            n == list@.len(),
            forall|j: int| 0 <= j < i ==> #[trigger] views(list@)[j] != s@,
    {
        if str_eq(list[i], s) {
            assert(views(list@)[i as int] == s@);
            return true;
        }
    }
    false
}

// ───────────────────────── replacing ─────────────────────────

/// `str::replace`: every occurrence of `pat` in `s`, from left to right and
/// without overlap, replaced by `rep` (`pat` non-empty).
pub open spec fn replace_spec(s: Seq<char>, pat: Seq<char>, rep: Seq<char>) -> Seq<char>
    recommends
        pat.len() > 0,
    decreases s.len(),
{
    if pat.len() == 0 || s.len() < pat.len() {
        s
    } else if is_prefix(pat, s) {
        rep + replace_spec(s.skip(pat.len() as int), pat, rep)
    } else {
        seq![s[0]] + replace_spec(s.drop_first(), pat, rep)
    }
}

/// Copy of `s` with every occurrence of `pat` replaced by `rep`.
pub fn replace(s: &str, pat: &str, rep: &str) -> (r: String)
    requires
        pat@.len() > 0,
    ensures
        r@ == replace_spec(s@, pat@, rep@),
{
    let cs = chars_of(s);
    let cp = chars_of(pat);
    let n = cs.len();
    let m = cp.len();
    let mut out = String::new();
    let mut i: usize = 0;
    assert(cs@.skip(0) =~= cs@);
    assert(out@ + replace_spec(cs@, cp@, rep@) =~= replace_spec(cs@, cp@, rep@));
    while i < n
        invariant
            n == cs@.len(),
            m == cp@.len(),
            cs@ == s@,
            cp@ == pat@,
            m > 0,
            i <= n,
            out@ + replace_spec(cs@.skip(i as int), cp@, rep@) == replace_spec(s@, pat@, rep@),
        decreases n - i,
    {
        let ghost rest = cs@.skip(i as int);
        if occurs_at_exec(cs.as_slice(), cp.as_slice(), i) {
            proof {
                assert(rest.take(m as int) =~= cs@.subrange(i as int, i + m));
                assert(rest.skip(m as int) =~= cs@.skip(i + m));
                assert(out@ + (rep@ + replace_spec(rest.skip(m as int), cp@, rep@)) =~= (out@ + rep@)
                    + replace_spec(cs@.skip(i + m), cp@, rep@));
            }
            push_str(&mut out, rep);
            i = i + m;
        } else {
            proof {
                if rest.len() >= m {
                    assert(rest.take(m as int) =~= cs@.subrange(i as int, i + m));
                }
                assert(rest.drop_first() =~= cs@.skip(i + 1));
                if rest.len() < m {
                    assert(replace_spec(rest, cp@, rep@) == rest);
                    let ghost tail = rest.drop_first();
                    assert(tail.len() < m);
                    assert(replace_spec(tail, cp@, rep@) == tail);
                    assert(rest =~= seq![rest[0]] + tail);
                }
                assert(out@ + (seq![rest[0]] + replace_spec(rest.drop_first(), cp@, rep@)) =~= out@.push(
                    cs@[i as int],
                ) + replace_spec(cs@.skip(i + 1), cp@, rep@));
            }
            push_char(&mut out, cs[i]);
            i = i + 1;
        }
    }
    proof {
        assert(cs@.skip(i as int) =~= Seq::<char>::empty());
        assert(out@ + Seq::<char>::empty() =~= out@);
    }
    out
}

// ───────────────────────── case ─────────────────────────

/// What `str::to_lowercase` gives for a text.
pub uninterp spec fn lowercase_of(s: Seq<char>) -> Seq<char>;

/// Lower-case copy of a text (`str::to_lowercase`, Unicode's lower-case
/// mapping); the mapping itself is named, not written out.
#[verifier::external_body]
pub(crate) fn to_lowercase(s: &str) -> (r: String)
    ensures
        r@ == lowercase_of(s@),
{
    s.to_lowercase()
}

// ───────────────────────── ordering ─────────────────────────

/// Lexicographic order of texts by code point (the order of `str`'s
/// `Ord`, UTF-8 keeping code-point order).
pub open spec fn lex_lt(a: Seq<char>, b: Seq<char>) -> bool
    decreases a.len(),
{
    if a.len() == 0 {
        b.len() > 0
    } else if b.len() == 0 {
        false
    } else if a[0] != b[0] {
        a[0] < b[0]
    } else {
        lex_lt(a.drop_first(), b.drop_first())
    }
}

/// No text comes before itself.
pub proof fn lemma_lex_irreflexive(a: Seq<char>)
    ensures
        !lex_lt(a, a),
    decreases a.len(),
{
    if a.len() > 0 {
        lemma_lex_irreflexive(a.drop_first());
    }
}

/// Of two different texts, exactly one comes first.
pub proof fn lemma_lex_total(a: Seq<char>, b: Seq<char>)
    ensures
        a != b ==> (lex_lt(a, b) || lex_lt(b, a)),
        !(lex_lt(a, b) && lex_lt(b, a)),
    decreases a.len(),
{
    if a.len() > 0 && b.len() > 0 && a[0] == b[0] {
        lemma_lex_total(a.drop_first(), b.drop_first());
        if a.drop_first() == b.drop_first() {
            assert(a =~= seq![a[0]] + a.drop_first());
            assert(b =~= seq![b[0]] + b.drop_first());
        }
    }
    if a.len() == 0 && b.len() == 0 {
        assert(a =~= b);
    }
}

/// The order is transitive.
pub proof fn lemma_lex_transitive(a: Seq<char>, b: Seq<char>, c: Seq<char>)
    requires
        lex_lt(a, b),
        lex_lt(b, c),
    ensures
        lex_lt(a, c),
    decreases a.len(),
{
    if a.len() > 0 && b.len() > 0 && c.len() > 0 && a[0] == b[0] && b[0] == c[0] {
        lemma_lex_transitive(a.drop_first(), b.drop_first(), c.drop_first());
    }
}

/// Whether `a` comes before `b`.
pub fn lex_less(a: &[char], b: &[char]) -> (r: bool)
    ensures
        r == lex_lt(a@, b@),
{
    let n = a.len();
    let m = b.len();
    let mut i: usize = 0;
    assert(a@.skip(0) =~= a@);
    assert(b@.skip(0) =~= b@);
    while i < n && i < m
        invariant
            i <= n,
            i <= m,
            n == a@.len(),
            m == b@.len(),
            lex_lt(a@, b@) == lex_lt(a@.skip(i as int), b@.skip(i as int)),
        decreases n - i,
    {
        let ghost sa = a@.skip(i as int);
        let ghost sb = b@.skip(i as int);
        assert(sa[0] == a@[i as int]);
        assert(sb[0] == b@[i as int]);
        if a[i] != b[i] {
            return a[i] < b[i];
        }
        assert(sa.drop_first() =~= a@.skip(i + 1));
        assert(sb.drop_first() =~= b@.skip(i + 1));
        i = i + 1;
    }
    n - i < m - i
}

} // verus!
