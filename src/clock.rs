//! Wall-clock times of day as `HH:MM` text and as minutes since midnight.
use vstd::prelude::*;
use vstd::string::*;
use crate::text::{dec_digits, pad2, push_decimal, push_pad2, digit_str, digit_char};

verus! {

pub open spec fn is_digit(c: char) -> bool {
    '0' <= c && c <= '9'
}

pub open spec fn all_digits(s: Seq<char>) -> bool {
    forall|i: int| 0 <= i < s.len() ==> is_digit(#[trigger] s[i])
}

/// The value of a run of decimal digits.
pub open spec fn digits_value(s: Seq<char>) -> int
    decreases s.len(),
{
    if s.len() == 0 {
        0
    } else {
        digits_value(s.drop_last()) * 10 + (s.last() as int - '0' as int)
    }
}

/// `s` splits at its only colon, position `p`, into two non-empty digit runs.
pub open spec fn clock_split(s: Seq<char>, p: int) -> bool {
    &&& 0 < p < s.len() - 1
    &&& s[p] == ':'
    &&& all_digits(s.subrange(0, p))
    &&& all_digits(s.subrange(p + 1, s.len() as int))
}

pub open spec fn clock_hours(s: Seq<char>) -> int {
    let p = choose|p: int| clock_split(s, p);
    digits_value(s.subrange(0, p))
}

pub open spec fn clock_mins(s: Seq<char>) -> int {
    let p = choose|p: int| clock_split(s, p);
    digits_value(s.subrange(p + 1, s.len() as int))
}

/// A time that parses lies within one day.
pub proof fn lemma_clock_minutes_in_day(s: Seq<char>)
    ensures
        clock_minutes(s) matches Some(m) ==> 0 <= m < 1440,
{
    if exists|p: int| clock_split(s, p) {
        let p = choose|p: int| clock_split(s, p);
        lemma_digits_value_nonneg(s.subrange(0, p));
        lemma_digits_value_nonneg(s.subrange(p + 1, s.len() as int));
    }
}

/// Minutes since midnight denoted by `HH:MM` text: two digit runs around one
/// colon, hours 0 to 23, minutes 0 to 59. `None` for anything else.
pub open spec fn clock_minutes(s: Seq<char>) -> Option<int> {
    if (exists|p: int| clock_split(s, p)) && clock_hours(s) <= 23 && clock_mins(s) <= 59 {
        Some(clock_hours(s) * 60 + clock_mins(s))
    } else {
        None
    }
}

/// `HH:MM` for a minute count, as `{:02}:{:02}` of its hours and minutes.
pub open spec fn clock_text(minutes: int) -> Seq<char> {
    pad2(trunc_div(minutes, 60)) + seq![':'] + pad2(minutes - 60 * trunc_div(minutes, 60))
}

/// Integer division rounding toward zero, as Rust's `/` on signed integers.
pub open spec fn trunc_div(a: int, b: int) -> int
    recommends
        b > 0,
{
    if a >= 0 { a / b } else { -((-a) / b) }
}

proof fn lemma_digits_value_nonneg(s: Seq<char>)
    requires
        all_digits(s),
    ensures
        digits_value(s) >= 0,
    decreases s.len(),
{
    if s.len() > 0 {
        assert(is_digit(s[s.len() - 1]));
        lemma_digits_value_nonneg(s.drop_last());
    }
}

/// Value of the digit run `s[from..to]`, capped at 100.
fn capped_digits_value(s: &str, from: usize, to: usize) -> (r: u64)
    requires
        from <= to <= s@.len(),
        all_digits(s@.subrange(from as int, to as int)),
    ensures
        r as int == if digits_value(s@.subrange(from as int, to as int)) >= 100 { 100 } else {
            digits_value(s@.subrange(from as int, to as int))
        },
{
    let mut v: u64 = 0;
    let mut i: usize = from;
    while i < to
        invariant
            from <= i <= to <= s@.len(),
            all_digits(s@.subrange(from as int, to as int)),
            v as int == if digits_value(s@.subrange(from as int, i as int)) >= 100 { 100 } else {
                digits_value(s@.subrange(from as int, i as int))
            },
        decreases to - i,
    {
        let c = s.get_char(i);
        assert(s@.subrange(from as int, to as int)[i - from] == c);
        let ghost prev = s@.subrange(from as int, i as int);
        let ghost next = s@.subrange(from as int, i + 1);
        assert(next.drop_last() =~= prev);
        assert(all_digits(prev)) by {
            assert forall|k: int| 0 <= k < prev.len() implies is_digit(#[trigger] prev[k]) by {
                assert(prev[k] == s@.subrange(from as int, to as int)[k]);
            }
        }
        proof { lemma_digits_value_nonneg(prev); }
        let d: u64 = (c as u32 - '0' as u32) as u64;
        if v >= 100 {
            v = 100;
        } else {
            v = v * 10 + d;
            if v > 100 {
                v = 100;
            }
        }
        i = i + 1;
    }
    assert(s@.subrange(from as int, i as int) =~= s@.subrange(from as int, to as int));
    v
}

/// Parses `HH:MM` into minutes since midnight.
pub fn parse_time_to_minutes(time_str: &str) -> (r: Result<i64, String>)
    ensures
        match r {
            Ok(m) => clock_minutes(time_str@) == Some(m as int) && 0 <= m < 1440,
            Err(e) => clock_minutes(time_str@).is_none() && e@ == "Invalid time format: "@ + time_str@,
        },
{
    let n = time_str.unicode_len();
    let mut colon: usize = n;
    let mut ok = true;
    let mut i: usize = 0;
    while i < n
        invariant
            n == time_str@.len(),
            i <= n,
            ok ==> (colon == n || colon < i),
            ok ==> colon < n ==> time_str@[colon as int] == ':',
            ok ==> forall|k: int| 0 <= k < i && k != colon ==> is_digit(#[trigger] time_str@[k]),
            !ok ==> forall|p: int| !clock_split(time_str@, p),
        decreases n - i,
    {
        let c = time_str.get_char(i);
        if ok {
            if c == ':' {
                if colon == n {
                    colon = i;
                } else {
                    let ghost c1 = colon;
                    let ghost c2 = i;
                    assert forall|p: int| !clock_split(time_str@, p) by {
                        if clock_split(time_str@, p) {
                            if p != c1 as int {
                                assert(time_str@.subrange(0, p)[c1 as int] == ':');
                                assert(time_str@.subrange(p + 1, n as int)[c1 - p - 1] == ':');
                            } else {
                                assert(time_str@.subrange(p + 1, n as int)[c2 - p - 1] == ':');
                            }
                        }
                    }
                    ok = false;
                }
            } else if !('0' <= c && c <= '9') {
                let ghost ci = i;
                assert forall|p: int| !clock_split(time_str@, p) by {
                    if clock_split(time_str@, p) {
                        if (ci as int) < p {
                            assert(time_str@.subrange(0, p)[ci as int] == c);
                        } else {
                            assert(time_str@.subrange(p + 1, n as int)[ci - p - 1] == c);
                        }
                    }
                }
                ok = false;
            }
        }
        i = i + 1;
    }
    let mut err = String::from_str("Invalid time format: ");
    err.append(time_str);
    if !ok || colon == n || colon == 0 || colon == n - 1 {
        proof {
            if ok && colon == n {
                assert forall|p: int| !clock_split(time_str@, p) by {
                    if clock_split(time_str@, p) {
                        assert(time_str@[p] == ':');
                        assert(!is_digit(':'));
                    }
                }
            }
            if ok && colon < n {
                assert forall|p: int| !clock_split(time_str@, p) by {
                    if clock_split(time_str@, p) && p != colon {
                        if p < colon {
                            assert(time_str@.subrange(p + 1, n as int)[colon - p - 1] == ':');
                        } else {
                            assert(time_str@.subrange(0, p)[colon as int] == ':');
                        }
                    }
                }
            }
        }
        return Err(err);
    }
    assert(clock_split(time_str@, colon as int)) by {
        assert forall|k: int| 0 <= k < colon implies is_digit(#[trigger] time_str@.subrange(0, colon as int)[k]) by {
            assert(time_str@.subrange(0, colon as int)[k] == time_str@[k]);
        }
        assert forall|k: int| 0 <= k < n - colon - 1 implies is_digit(#[trigger] time_str@.subrange(colon + 1, n as int)[k]) by {
            assert(time_str@.subrange(colon + 1, n as int)[k] == time_str@[colon + 1 + k]);
        }
    }
    assert forall|p: int| clock_split(time_str@, p) implies p == colon by {
        if p < colon {
            assert(time_str@.subrange(p + 1, n as int)[colon - p - 1] == ':');
        } else if p > colon {
            assert(time_str@.subrange(0, p)[colon as int] == ':');
        }
    }
    let h = capped_digits_value(time_str, 0, colon);
    let m = capped_digits_value(time_str, colon + 1, n);
    if h > 23 {
        return Err(err);
    }
    if m > 59 {
        return Err(err);
    }
    Ok((h * 60 + m) as i64)
}

/// Formats minutes since midnight as `HH:MM`.
pub fn format_minutes_to_time(minutes: i64) -> (r: String)
    ensures
        r@ == clock_text(minutes as int),
{
    let wide = minutes as i128;
    let q: i128 = if wide >= 0 { wide / 60 } else { -((-wide) / 60) };
    let rem: i128 = wide - 60 * q;
    let mut out = String::new();
    push_pad2(&mut out, q as i64);
    proof { reveal_strlit(":"); }
    out.append(":");
    push_pad2(&mut out, rem as i64);
    assert(out@ =~= clock_text(minutes as int));
    out
}

/// Hundredths of an hour in `minutes`, rounded to the nearest.
pub open spec fn hundredths_of_hour(minutes: nat) -> nat {
    (10 * minutes + 3) / 6
}

/// A duration in minutes as fractional hours with two decimals (`8.50`).
pub open spec fn hours_text(minutes: nat) -> Seq<char> {
    let c = hundredths_of_hour(minutes);
    dec_digits(c / 100) + seq!['.', digit_char((c % 100) / 10), digit_char(c % 10)]
}

/// Formats a duration in minutes as hours with two decimals.
pub fn format_hours(minutes: u32) -> (r: String)
    ensures
        r@ == hours_text(minutes as nat),
{
    let c: u64 = (10 * (minutes as u64) + 3) / 6;
    let mut out = String::new();
    push_decimal(&mut out, c / 100);
    proof { reveal_strlit("."); }
    out.append(".");
    out.append(digit_str((c % 100) / 10));
    out.append(digit_str(c % 10));
    assert(out@ =~= hours_text(minutes as nat));
    out
}

} // verus!
