//! Per-guild key/value configuration and the typed settings of the
//! "Coup de Coude" game read from it, each with its default.

use vstd::prelude::*;
use crate::text::{chars_eq, chars_of, owned, parse_u64, parse_u64_spec, str_eq, trim, trim_spec};

verus! {

// ───────────────────────── key/value store ─────────────────────────

/// Value bound to `key`: the last entry with that key wins, as when a
/// list of pairs is collected into a hash map.
pub open spec fn lookup(entries: Seq<(Seq<char>, Seq<char>)>, key: Seq<char>) -> Option<Seq<char>>
    decreases entries.len(),
{
    if entries.len() == 0 {
        None
    } else if entries.last().0 == key {
        Some(entries.last().1)
    } else {
        lookup(entries.drop_last(), key)
    }
}

/// Raw guild configuration: string keys bound to string values.
pub struct ConfigMap {
    entries: Vec<(String, String)>,
}

impl ConfigMap {
    /// The entries as character sequences.
    pub closed spec fn pairs(&self) -> Seq<(Seq<char>, Seq<char>)> {
        self.entries@.map_values(|e: (String, String)| (e.0@, e.1@))
    }

    /// Value bound to `key`, if any.
    pub open spec fn get_spec(&self, key: Seq<char>) -> Option<Seq<char>> {
        lookup(self.pairs(), key)
    }

    /// An empty configuration (what the bot uses when the API fails).
    pub fn new() -> (m: ConfigMap)
        ensures
            forall|k: Seq<char>| m.get_spec(k) is None,
    {
        let m = ConfigMap { entries: Vec::new() };
        assert(m.pairs() =~= Seq::empty());
        m
    }

    /// A configuration from key/value pairs; a repeated key keeps its last
    /// value.
    pub fn from_pairs(entries: Vec<(String, String)>) -> (m: ConfigMap)
        ensures
            m.pairs() == entries@.map_values(|e: (String, String)| (e.0@, e.1@)),
    {
        ConfigMap { entries }
    }

    /// Binds `key` to `value`, replacing any earlier binding.
    pub fn insert(&mut self, key: String, value: String)
        ensures
            forall|k: Seq<char>| #[trigger] final(self).get_spec(k) == if k == key@ {
                Some(value@)
            } else {
                old(self).get_spec(k)
            },
    {
        let ghost kv = key@;
        let ghost vv = value@;
        self.entries.push((key, value));
        proof {
            let p = self.pairs();
            assert(p.drop_last() =~= old(self).pairs());
            assert(p.last() == (kv, vv));
        }
    }

    /// Value bound to `key`.
    pub fn get(&self, key: &str) -> (r: Option<String>)
        ensures
            match r {
                Some(v) => self.get_spec(key@) == Some(v@),
                None => self.get_spec(key@) is None,
            },
    {
        let ghost ps = self.pairs();
        let mut i = self.entries.len();
        assert(ps.take(i as int) =~= ps);
        while i > 0
            invariant
                i <= self.entries@.len(),
                ps == self.pairs(),
                lookup(ps, key@) == lookup(ps.take(i as int), key@),
            decreases i,
        {
            let e = &self.entries[i - 1];
            let ghost t = ps.take(i as int);
            assert(t.last() == (e.0@, e.1@));
            assert(t.drop_last() =~= ps.take(i - 1));
            if str_eq(e.0.as_str(), key) {
                return Some(owned(e.1.as_str()));
            }
            i = i - 1;
        }
        assert(ps.take(0) =~= Seq::<(Seq<char>, Seq<char>)>::empty());
        None
    }
}

/// Text setting: the bound value, or `default` when absent.
pub open spec fn text_setting(m: &ConfigMap, key: Seq<char>, default: Seq<char>) -> Seq<char> {
    match m.get_spec(key) {
        Some(v) => v,
        None => default,
    }
}

/// Unsigned setting: the bound value when it reads as a `u64`, else
/// `default`.
pub open spec fn u64_setting(m: &ConfigMap, key: Seq<char>, default: u64) -> u64 {
    match m.get_spec(key) {
        Some(v) => match parse_u64_spec(v) {
            Some(n) => n,
            None => default,
        },
        None => default,
    }
}

/// Boolean setting: `"true"` or `"1"` when bound, else `default`.
pub open spec fn bool_setting(m: &ConfigMap, key: Seq<char>, default: bool) -> bool {
    match m.get_spec(key) {
        Some(v) => v == "true"@ || v == "1"@,
        None => default,
    }
}

/// The text bound to `key`, or `default`.
pub fn config_or(m: &ConfigMap, key: &str, default: &str) -> (r: String)
    ensures
        r@ == text_setting(m, key@, default@),
{
    match m.get(key) {
        Some(v) => v,
        None => owned(default),
    }
}

/// The unsigned value bound to `key`, or `default` when absent or not a
/// number.
pub fn config_u64(m: &ConfigMap, key: &str, default: u64) -> (r: u64)
    ensures
        r == u64_setting(m, key@, default),
{
    match m.get(key) {
        Some(v) => match parse_u64(v.as_str()) {
            Some(n) => n,
            None => default,
        },
        None => default,
    }
}

/// The flag bound to `key` (`"true"` or `"1"` mean on), or `default`.
pub fn config_bool(m: &ConfigMap, key: &str, default: bool) -> (r: bool)
    ensures
        r == bool_setting(m, key@, default),
{
    match m.get(key) {
        Some(v) => str_eq(v.as_str(), "true") || str_eq(v.as_str(), "1"),
        None => default,
    }
}

// ───────────────────────── double hit aggregation ─────────────────────────

/// How the two d20 rolls of a double hit are combined.
#[derive(PartialEq, Eq, Structural, Clone, Copy, Debug)]
pub enum DoubleCoupMode {
    Max,
    Median,
    Min,
}

/// ASCII lower-casing of one character (`char::to_ascii_lowercase`).
pub open spec fn ascii_lower(c: char) -> char {
    if 'A' <= c && c <= 'Z' {
        ((c as u32) + 32) as char
    } else {
        c
    }
}

/// ASCII lower-casing of a text (`str::to_ascii_lowercase`).
pub open spec fn ascii_lower_seq(s: Seq<char>) -> Seq<char> {
    s.map_values(|c: char| ascii_lower(c))
}

/// ASCII lower-casing of one character.
pub fn to_ascii_lower(c: char) -> (r: char)
    ensures
        r == ascii_lower(c),
{
    if 'A' <= c && c <= 'Z' {
        let u: u32 = (c as u32) + 32;
        let b: u8 = u as u8;
        b as char
    } else {
        c
    }
}

/// ASCII lower-casing of a character sequence.
pub fn lower_chars(cs: &[char]) -> (r: Vec<char>)
    ensures
        r@ == ascii_lower_seq(cs@),
{
    let mut r: Vec<char> = Vec::new();
    let n = cs.len();
    for i in 0..n
        invariant
            n == cs@.len(),
            r@ == ascii_lower_seq(cs@.take(i as int)),
    {
        r.push(to_ascii_lower(cs[i]));
        assert(ascii_lower_seq(cs@.take(i + 1)) =~= ascii_lower_seq(cs@.take(i as int)).push(ascii_lower(cs@[i as int])));
    }
    assert(cs@.take(n as int) =~= cs@);
    r
}

/// Mode named by a setting value: trimmed, case-insensitive `max` or `min`;
/// anything else (including `median`, `mediane` and the empty text) is
/// `Median`.
pub open spec fn parse_mode_spec(s: Seq<char>) -> DoubleCoupMode {
    let k = ascii_lower_seq(trim_spec(s));
    if k == "max"@ {
        DoubleCoupMode::Max
    } else if k == "min"@ {
        DoubleCoupMode::Min
    } else {
        DoubleCoupMode::Median
    }
}

/// The mean of two values rounded to the nearest integer, halves rounded
/// up: the median of two rolls.
pub open spec fn median_of_two(a: int, b: int) -> int {
    (a + b + 1) / 2
}

/// Combination of two rolls under a mode.
pub open spec fn aggregate_spec(mode: DoubleCoupMode, a: int, b: int) -> int {
    match mode {
        DoubleCoupMode::Max => if a >= b { a } else { b },
        DoubleCoupMode::Min => if a <= b { a } else { b },
        DoubleCoupMode::Median => median_of_two(a, b),
    }
}

impl DoubleCoupMode {
    /// Reads a mode from its setting text; unknown text gives `Median`.
    pub fn parse(s: &str) -> (m: DoubleCoupMode)
        ensures
            m == parse_mode_spec(s@),
    {
        let t = trim(s);
        let cs = chars_of(t.as_str());
        let k = lower_chars(cs.as_slice());
        let max_k = chars_of("max");
        let min_k = chars_of("min");
        if chars_eq(k.as_slice(), max_k.as_slice()) {
            DoubleCoupMode::Max
        } else if chars_eq(k.as_slice(), min_k.as_slice()) {
            DoubleCoupMode::Min
        } else {
            DoubleCoupMode::Median
        }
    }

    /// Combines two rolls: the larger, the smaller, or their median, the
    /// mean rounded to the nearest integer (halves up).
    pub fn aggregate(self, a: i32, b: i32) -> (r: i32)
        requires
            self == DoubleCoupMode::Median ==> i32::MIN <= a + b <= i32::MAX,
        ensures
            r as int == aggregate_spec(self, a as int, b as int),
    {
        match self {
            DoubleCoupMode::Max => if a >= b { a } else { b },
            DoubleCoupMode::Min => if a <= b { a } else { b },
            DoubleCoupMode::Median => {
                let s: i64 = a as i64 + b as i64 + 1;
                let m: i64 = if s >= 0 {
                    s / 2
                } else {
                    -((-s + 1) / 2)
                };
                m as i32
            },
        }
    }
}

} // verus!
