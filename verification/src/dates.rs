//! Times the API sends as RFC 3339 text, read into Unix seconds and
//! nanoseconds, and compared with the current time, which the caller reads
//! from the clock.

use vstd::prelude::*;

verus! {

/// The instant of an RFC 3339 date-time: its Unix time in whole seconds and
/// the nanoseconds within that second (1 000 000 000 or more for a leap
/// second), or `None` when the text is not one.
pub uninterp spec fn rfc3339_instant(text: Seq<char>) -> Option<(i64, u32)>;

/// Runs `chrono::DateTime::parse_from_rfc3339` and gives the parsed time's
/// `timestamp()` and `timestamp_subsec_nanos()`, or `None` when chrono
/// refuses the text. What chrono accepts and its calendar arithmetic are
/// named by `rfc3339_instant`, not restated.
#[verifier::external_body]
fn parse_rfc3339(text: &str) -> (r: Option<(i64, u32)>)
    ensures
        r == rfc3339_instant(text@),
{
    match chrono::DateTime::parse_from_rfc3339(text) {
        Ok(t) => Some((t.timestamp(), t.timestamp_subsec_nanos())),
        Err(_) => None,
    }
}

/// Nanoseconds in a second.
pub const NANOS: i128 = 1_000_000_000;

/// Integer division rounding toward zero, as Rust's `/` does.
pub open spec fn div_toward_zero(x: int, d: int) -> int {
    if x >= 0 {
        x / d
    } else {
        -((-x) / d)
    }
}

/// `x` fits in an `i64`.
pub open spec fn fits_i64(x: int) -> bool {
    i64::MIN <= x <= i64::MAX
}

/// Second of the day (UTC) of a Unix time.
pub open spec fn second_of_day(s: int) -> int {
    s % 86400
}

/// Exact nanoseconds from instant `b` to instant `a` (seconds and
/// nanoseconds each), as chrono's `signed_duration_since` counts them: a
/// leap second (nanoseconds of 1 000 000 000 or more) is counted as one
/// more second when the other instant lies later in its day, and one less
/// when earlier.
pub open spec fn nanos_between(a_s: int, a_f: int, b_s: int, b_f: int) -> int {
    let leap = if second_of_day(a_s) > second_of_day(b_s) && b_f >= NANOS {
        1int
    } else if second_of_day(a_s) < second_of_day(b_s) && a_f >= NANOS {
        -1int
    } else {
        0int
    };
    (a_s - b_s + leap) * NANOS + (a_f - b_f)
}

/// Whole seconds (rounded toward zero) from now until the time written in
/// `text` (negative once it passed); `None` when the text does not parse
/// or the seconds do not fit in an `i64`.
pub open spec fn seconds_until_spec(text: Seq<char>, now_s: int, now_f: int) -> Option<int> {
    match rfc3339_instant(text) {
        Some((t_s, t_f)) => {
            let s = div_toward_zero(nanos_between(t_s as int, t_f as int, now_s, now_f), NANOS as int);
            if fits_i64(s) {
                Some(s)
            } else {
                None
            }
        },
        None => None,
    }
}

/// Whole seconds (rounded toward zero) since the time written in `text`;
/// `None` when the text does not parse or the seconds do not fit in an
/// `i64`.
pub open spec fn seconds_since_spec(text: Seq<char>, now_s: int, now_f: int) -> Option<int> {
    match rfc3339_instant(text) {
        Some((t_s, t_f)) => {
            let s = div_toward_zero(nanos_between(now_s, now_f, t_s as int, t_f as int), NANOS as int);
            if fits_i64(s) {
                Some(s)
            } else {
                None
            }
        },
        None => None,
    }
}

/// Whole minutes since the time written in `text`: the whole seconds
/// rounded toward zero, then divided by 60 rounding toward zero; `None`
/// when the text does not parse.
pub open spec fn minutes_since_spec(text: Seq<char>, now_s: int, now_f: int) -> Option<int> {
    match rfc3339_instant(text) {
        Some((t_s, t_f)) => Some(
            div_toward_zero(
                div_toward_zero(nanos_between(now_s, now_f, t_s as int, t_f as int), NANOS as int),
                60,
            ),
        ),
        None => None,
    }
}

/// `second_of_day` of a Unix time.
fn second_of_day_exec(s: i64) -> (r: i64)
    ensures
        r == second_of_day(s as int),
{
    let r = s % 86400;
    if r < 0 {
        r + 86400
    } else {
        r
    }
}

/// `nanos_between` computed without overflow.
fn nanos_between_exec(a_s: i64, a_f: u32, b_s: i64, b_f: u32) -> (r: i128)
    ensures
        r == nanos_between(a_s as int, a_f as int, b_s as int, b_f as int),
{
    let da = second_of_day_exec(a_s);
    let db = second_of_day_exec(b_s);
    let leap: i128 = if da > db && b_f as i128 >= NANOS {
        1
    } else if da < db && a_f as i128 >= NANOS {
        -1
    } else {
        0
    };
    let secs: i128 = a_s as i128 - b_s as i128 + leap;
    assert(-0x1_0000_0000_0000_0002 <= secs <= 0x1_0000_0000_0000_0002);
    assert(-0x1_0000_0000_0000_0002 * 1_000_000_000 <= secs * 1_000_000_000 <= 0x1_0000_0000_0000_0002 * 1_000_000_000)
        by (nonlinear_arith)
        requires
            -0x1_0000_0000_0000_0002 <= secs <= 0x1_0000_0000_0000_0002,
    ;
    secs * NANOS + (a_f as i128 - b_f as i128)
}

/// Division rounding toward zero of a non-overflowing `i128`.
fn div_toward_zero_exec(x: i128, d: i128) -> (r: i128)
    requires
        d > 0,
        x > i128::MIN,
    ensures
        r == div_toward_zero(x as int, d as int),
{
    if x >= 0 {
        x / d
    } else {
        -((-x) / d)
    }
}

/// Seconds left until an expiry written in RFC 3339, now being `now_s`
/// seconds and `now_f` nanoseconds.
pub fn seconds_until(text: &str, now_s: i64, now_f: u32) -> (r: Option<i64>)
    ensures
        match r {
            Some(s) => seconds_until_spec(text@, now_s as int, now_f as int) == Some(s as int),
            None => seconds_until_spec(text@, now_s as int, now_f as int) is None,
        },
{
    match parse_rfc3339(text) {
        Some((t_s, t_f)) => {
            let d = nanos_between_exec(t_s, t_f, now_s, now_f);
            let s = div_toward_zero_exec(d, NANOS);
            if i64::MIN as i128 <= s && s <= i64::MAX as i128 {
                Some(s as i64)
            } else {
                None
            }
        },
        None => None,
    }
}

/// Seconds elapsed since a time written in RFC 3339, now being `now_s`
/// seconds and `now_f` nanoseconds.
pub fn seconds_since(text: &str, now_s: i64, now_f: u32) -> (r: Option<i64>)
    ensures
        match r {
            Some(s) => seconds_since_spec(text@, now_s as int, now_f as int) == Some(s as int),
            None => seconds_since_spec(text@, now_s as int, now_f as int) is None,
        },
{
    match parse_rfc3339(text) {
        Some((t_s, t_f)) => {
            let d = nanos_between_exec(now_s, now_f, t_s, t_f);
            let s = div_toward_zero_exec(d, NANOS);
            if i64::MIN as i128 <= s && s <= i64::MAX as i128 {
                Some(s as i64)
            } else {
                None
            }
        },
        None => None,
    }
}

/// Whole minutes elapsed since a time written in RFC 3339, now being
/// `now_s` seconds and `now_f` nanoseconds.
pub fn minutes_since(text: &str, now_s: i64, now_f: u32) -> (r: Option<i64>)
    ensures
        match r {
            Some(m) => minutes_since_spec(text@, now_s as int, now_f as int) == Some(m as int),
            None => minutes_since_spec(text@, now_s as int, now_f as int) is None,
        },
{
    match parse_rfc3339(text) {
        Some((t_s, t_f)) => {
            let d = nanos_between_exec(now_s, now_f, t_s, t_f);
            let s = div_toward_zero_exec(d, NANOS);
            let m = div_toward_zero_exec(s, 60);
            Some(m as i64)
        },
        None => None,
    }
}

/// Age of a duel in seconds, now being `now_s` seconds and `now_f`
/// nanoseconds: an unreadable creation time counts as now (age 0), and so
/// does an age beyond `i64`.
pub fn duel_age_secs(created_at: &str, now_s: i64, now_f: u32) -> (r: i64)
    ensures
        r as int == match seconds_since_spec(created_at@, now_s as int, now_f as int) {
            Some(s) => s,
            None => 0,
        },
{
    match seconds_since(created_at, now_s, now_f) {
        Some(s) => s,
        None => 0,
    }
}

} // verus!
