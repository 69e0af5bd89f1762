//! Human-readable formatting of byte counts, rates, durations and
//! display-width-aware truncation.

use vstd::prelude::*;
use vstd::arithmetic::power2::pow2;
use crate::runtime::subscription::Timestamp;
use crate::text::{owned, chars_of, decimal, digit_char, join, push_all, push_decimal, push_joined, push_range, string_from_chars};

verus! {

pub const KIB: u64 = 1024;
pub const MIB: u64 = 1048576;
pub const GIB: u64 = 1073741824;
pub const TIB: u64 = 1099511627776;

/// The largest power of two that an `f64` mantissa represents exactly.
pub open spec fn mantissa_limit() -> nat {
    0x20_0000_0000_0000
}

/// The spacing of the `f64` values around `b`: 1 below 2^53, and doubling
/// with every further bit of `b`.
pub open spec fn double_spacing(b: nat) -> nat
    decreases b,
{
    if b < mantissa_limit() {
        1
    } else {
        2 * double_spacing(b / 2)
    }
}

/// `n / d` rounded to the nearest integer, ties to the even one.
pub open spec fn round_half_even(n: nat, d: nat) -> nat
    recommends
        d > 0,
{
    let q = n / d;
    let r = n % d;
    if 2 * r > d || (2 * r == d && q % 2 == 1) {
        q + 1
    } else {
        q
    }
}

/// The value of `b as f64` for an unsigned integer `b`: the nearest double,
/// ties to even.
pub open spec fn nearest_double(b: nat) -> nat {
    round_half_even(b, double_spacing(b)) * double_spacing(b)
}

/// The exact rational `n / d` printed with two decimal places, rounding
/// ties to even (as `{:.2}` does).
pub open spec fn fixed2(n: nat, d: nat) -> Seq<char> {
    let q = round_half_even(n * 100, d);
    decimal(q / 100) + seq!['.', digit_char((q % 100) / 10), digit_char(q % 10)]
}

/// The exact rational `n / d` printed with one decimal place, rounding
/// ties to even (as `{:.1}` does).
pub open spec fn fixed1(n: nat, d: nat) -> Seq<char> {
    let q = round_half_even(n * 10, d);
    decimal(q / 10) + seq!['.', digit_char(q % 10)]
}

/// What `bytes_to_human` returns.
pub open spec fn bytes_to_human_spec(b: nat) -> Seq<char> {
    if b == 0 {
        seq!['0', ' ', 'B']
    } else if b >= TIB {
        fixed2(nearest_double(b), TIB as nat) + seq![' ', 'T', 'B']
    } else if b >= GIB {
        fixed2(nearest_double(b), GIB as nat) + seq![' ', 'G', 'B']
    } else if b >= MIB {
        fixed2(nearest_double(b), MIB as nat) + seq![' ', 'M', 'B']
    } else if b >= KIB {
        fixed2(nearest_double(b), KIB as nat) + seq![' ', 'K', 'B']
    } else {
        decimal(b) + seq![' ', 'B']
    }
}

/// What `format_speed` returns.
pub open spec fn format_speed_spec(b: nat) -> Seq<char> {
    bytes_to_human_spec(b) + seq!['/', 's']
}

/// What `format_bytes` (the status-bar rate) returns.
pub open spec fn format_bytes_spec(b: nat) -> Seq<char> {
    if b >= GIB {
        fixed1(nearest_double(b), GIB as nat) + seq![' ', 'G', 'B', '/', 's']
    } else if b >= MIB {
        fixed1(nearest_double(b), MIB as nat) + seq![' ', 'M', 'B', '/', 's']
    } else if b >= KIB {
        fixed1(nearest_double(b), KIB as nat) + seq![' ', 'K', 'B', '/', 's']
    } else {
        decimal(b) + seq![' ', 'B', '/', 's']
    }
}

/// `b as f64` as an exact integer.
fn nearest_double_exec(b: u64) -> (r: u128)
    ensures
        r == nearest_double(b as nat),
        r <= 0x1_0000_0000_0000_0000,
{
    let mut m: u64 = b;
    let mut p: u128 = 1;
    let ghost mut e: nat = 0;
    proof {
        assert(b as nat / 1 == b) by (nonlinear_arith);
        vstd::arithmetic::power2::lemma2_to64();
    }
    while m >= 0x20_0000_0000_0000
        invariant
            p >= 1,
            p == pow2(e),
            e <= 11,
            m as nat == b as nat / p as nat,
            double_spacing(b as nat) == p * double_spacing(m as nat),
        decreases m,
    {
        proof {
            vstd::arithmetic::div_mod::lemma_div_denominator(b as int, p as int, 2);
            assert(double_spacing(m as nat) == 2 * double_spacing((m / 2) as nat));
            assert(p * (2 * double_spacing((m / 2) as nat)) == (p * 2) * double_spacing(
                (m / 2) as nat,
            )) by (nonlinear_arith);
            vstd::arithmetic::power2::lemma_pow2_unfold(e + 1);
            assert(p * mantissa_limit() <= b) by (nonlinear_arith)
                requires
                    m as nat == b as nat / p as nat,
                    m >= mantissa_limit(),
                    p >= 1,
            ;
            vstd::arithmetic::power2::lemma2_to64();
            if e >= 11 {
                if e > 11 {
                    vstd::arithmetic::power2::lemma_pow2_strictly_increases(11, e);
                }
                assert(p >= 2048);
                assert(p * mantissa_limit() >= 2048 * mantissa_limit()) by (nonlinear_arith)
                    requires
                        p >= 2048,
                ;
            }
        }
        m = m / 2;
        p = p * 2;
        proof {
            e = e + 1;
        }
    }
    let q: u128 = b as u128 / p;
    let rem: u128 = b as u128 % p;
    let r = if 2 * rem > p || (2 * rem == p && q % 2 == 1) {
        q + 1
    } else {
        q
    };
    proof {
        assert(double_spacing(m as nat) == 1);
        assert(p * 1 == p);
        vstd::arithmetic::power2::lemma_pow2_adds(e, (64 - e) as nat);
        vstd::arithmetic::power2::lemma2_to64();
        vstd::arithmetic::power2::lemma2_to64_rest();
        let k = pow2((64 - e) as nat);
        assert(q * p <= b) by (nonlinear_arith)
            requires
                q == b as nat / p as nat,
                p >= 1,
        ;
        assert(r * p <= 0x1_0000_0000_0000_0000) by (nonlinear_arith)
            requires
                r <= q + 1,
                q * p <= b,
                b < 0x1_0000_0000_0000_0000,
                p * k == 0x1_0000_0000_0000_0000,
                p >= 1,
        ;
    }
    r * p
}

/// `n / d` rounded to the nearest integer, ties to even.
fn round_half_even_exec(n: u128, d: u128) -> (r: u128)
    requires
        0 < d <= 0x1_0000_0000_0000_0000,
        n <= 0x1_0000_0000_0000_0000 * 100,
    ensures
        r == round_half_even(n as nat, d as nat),
        r <= n / d + 1,
{
    let q = n / d;
    let rem = n % d;
    if 2 * rem > d || (2 * rem == d && q % 2 == 1) {
        q + 1
    } else {
        q
    }
}

/// Appends the decimal digit `d < 10`.
fn push_digit(out: &mut Vec<char>, d: u128)
    requires
        d < 10,
    ensures
        final(out)@ == old(out)@.push(digit_char(d as nat)),
{
    out.push((48u8 + d as u8) as char);
}

/// Appends `n / d` with two decimal places.
fn push_fixed2(out: &mut Vec<char>, n: u128, d: u128)
    requires
        0 < d <= 0x1_0000_0000_0000_0000,
        n <= 0x1_0000_0000_0000_0000,
    ensures
        final(out)@ == old(out)@ + fixed2(n as nat, d as nat),
{
    let q = round_half_even_exec(n * 100, d);
    let ghost start = out@;
    push_decimal(out, q / 100);
    out.push('.');
    push_digit(out, (q % 100) / 10);
    push_digit(out, q % 10);
    assert(out@ =~= start + fixed2(n as nat, d as nat));
}

/// Appends `n / d` with one decimal place.
fn push_fixed1(out: &mut Vec<char>, n: u128, d: u128)
    requires
        0 < d <= 0x1_0000_0000_0000_0000,
        n <= 0x1_0000_0000_0000_0000,
    ensures
        final(out)@ == old(out)@ + fixed1(n as nat, d as nat),
{
    let q = round_half_even_exec(n * 10, d);
    let ghost start = out@;
    push_decimal(out, q / 10);
    out.push('.');
    push_digit(out, q % 10);
    assert(out@ =~= start + fixed1(n as nat, d as nat));
}

/// Convert a byte count to a human-readable string.
///
/// Uses binary prefixes (1 KB = 1024 B) and two decimal places above 1 KB.
pub fn bytes_to_human(bytes: u64) -> (s: String)
    ensures
        s@ == bytes_to_human_spec(bytes as nat),
{
    let mut out: Vec<char> = Vec::new();
    if bytes == 0 {
        out.push('0');
        out.push(' ');
        out.push('B');
        assert(out@ =~= bytes_to_human_spec(bytes as nat));
        return string_from_chars(out.as_slice());
    }
    let v = nearest_double_exec(bytes);
    if bytes >= TIB {
        push_fixed2(&mut out, v, TIB as u128);
        push_all(&mut out, &[' ', 'T', 'B']);
    } else if bytes >= GIB {
        push_fixed2(&mut out, v, GIB as u128);
        push_all(&mut out, &[' ', 'G', 'B']);
    } else if bytes >= MIB {
        push_fixed2(&mut out, v, MIB as u128);
        push_all(&mut out, &[' ', 'M', 'B']);
    } else if bytes >= KIB {
        push_fixed2(&mut out, v, KIB as u128);
        push_all(&mut out, &[' ', 'K', 'B']);
    } else {
        push_decimal(&mut out, bytes as u128);
        push_all(&mut out, &[' ', 'B']);
    }
    assert(out@ =~= bytes_to_human_spec(bytes as nat));
    string_from_chars(out.as_slice())
}

/// Format bytes per second as a human-readable speed string.
pub fn format_speed(bytes_per_sec: u64) -> (s: String)
    ensures
        s@ == format_speed_spec(bytes_per_sec as nat),
{
    let human = bytes_to_human(bytes_per_sec);
    let mut out = crate::text::chars_of(human.as_str());
    push_all(&mut out, &['/', 's']);
    string_from_chars(out.as_slice())
}

/// Format a byte rate for the status bar, with one decimal place.
pub fn format_bytes(bytes: u64) -> (s: String)
    ensures
        s@ == format_bytes_spec(bytes as nat),
{
    let mut out: Vec<char> = Vec::new();
    if bytes >= GIB {
        let v = nearest_double_exec(bytes);
        push_fixed1(&mut out, v, GIB as u128);
        push_all(&mut out, &[' ', 'G', 'B', '/', 's']);
    } else if bytes >= MIB {
        let v = nearest_double_exec(bytes);
        push_fixed1(&mut out, v, MIB as u128);
        push_all(&mut out, &[' ', 'M', 'B', '/', 's']);
    } else if bytes >= KIB {
        let v = nearest_double_exec(bytes);
        push_fixed1(&mut out, v, KIB as u128);
        push_all(&mut out, &[' ', 'K', 'B', '/', 's']);
    } else {
        push_decimal(&mut out, bytes as u128);
        push_all(&mut out, &[' ', 'B', '/', 's']);
    }
    assert(out@ =~= format_bytes_spec(bytes as nat));
    string_from_chars(out.as_slice())
}

/// What the panel's rate formatter returns: megabytes or kilobytes per
/// second with one decimal place, else bytes per second.
pub open spec fn format_rate_spec(b: nat) -> Seq<char> {
    if b >= MIB {
        fixed1(nearest_double(b), MIB as nat) + seq![' ', 'M', 'B', '/', 's']
    } else if b >= KIB {
        fixed1(nearest_double(b), KIB as nat) + seq![' ', 'K', 'B', '/', 's']
    } else {
        decimal(b) + seq![' ', 'B', '/', 's']
    }
}

/// Format a byte rate for the panel view, in MB/s at most.
pub fn format_rate(bytes: u64) -> (s: String)
    ensures
        s@ == format_rate_spec(bytes as nat),
{
    let mut out: Vec<char> = Vec::new();
    if bytes >= MIB {
        let v = nearest_double_exec(bytes);
        push_fixed1(&mut out, v, MIB as u128);
        push_all(&mut out, &[' ', 'M', 'B', '/', 's']);
    } else if bytes >= KIB {
        let v = nearest_double_exec(bytes);
        push_fixed1(&mut out, v, KIB as u128);
        push_all(&mut out, &[' ', 'K', 'B', '/', 's']);
    } else {
        push_decimal(&mut out, bytes as u128);
        push_all(&mut out, &[' ', 'B', '/', 's']);
    }
    assert(out@ =~= format_rate_spec(bytes as nat));
    string_from_chars(out.as_slice())
}

/// The optional `"{n}{unit}"` part of a duration.
pub open spec fn duration_part(n: nat, unit: char, shown: bool) -> Seq<Seq<char>> {
    if shown {
        seq![decimal(n).push(unit)]
    } else {
        seq![]
    }
}

/// The parts of a duration: days, hours and minutes when non-zero, and
/// seconds when non-zero and the duration is shorter than a day.
pub open spec fn duration_parts(secs: nat) -> Seq<Seq<char>> {
    let days = secs / 86400;
    let hours = (secs % 86400) / 3600;
    let minutes = (secs % 3600) / 60;
    let seconds = secs % 60;
    duration_part(days, 'd', days > 0) + duration_part(hours, 'h', hours > 0) + duration_part(
        minutes,
        'm',
        minutes > 0,
    ) + duration_part(seconds, 's', seconds > 0 && days == 0)
}

/// What `format_duration` returns.
pub open spec fn format_duration_spec(secs: nat) -> Seq<char> {
    if secs == 0 {
        seq!['0', 's']
    } else {
        join(duration_parts(secs), seq![' '])
    }
}

/// Appends the part `"{n}{unit}"` to a space-joined list when `shown`.
fn push_duration_part(
    out: &mut Vec<char>,
    Ghost(parts): Ghost<Seq<Seq<char>>>,
    n: u64,
    unit: char,
    shown: bool,
) -> (first_after: bool)
    requires
        old(out)@ == join(parts, seq![' ']),
        old(out)@.len() == 0 <==> parts.len() == 0,
        forall|i: int| 0 <= i < parts.len() ==> #[trigger] parts[i].len() > 0,
    ensures
        final(out)@ == join(parts + duration_part(n as nat, unit, shown), seq![' ']),
        final(out)@.len() == 0 <==> (parts + duration_part(n as nat, unit, shown)).len() == 0,
        forall|i: int|
            0 <= i < (parts + duration_part(n as nat, unit, shown)).len() ==> #[trigger] (parts
                + duration_part(n as nat, unit, shown))[i].len() > 0,
        first_after <==> final(out)@.len() == 0,
{
    if shown {
        let mut part: Vec<char> = Vec::new();
        push_decimal(&mut part, n as u128);
        part.push(unit);
        let first = out.len() == 0;
        let sep: Vec<char> = vec![' '];
        assert(sep@ =~= seq![' ']);
        push_joined(out, Ghost(parts), first, sep.as_slice(), part.as_slice());
        assert(parts + duration_part(n as nat, unit, shown) =~= parts.push(part@));
        proof {
            let all = parts.push(part@);
            assert(all.len() > 0);
            assert(out@.len() >= part@.len()) by {
                if parts.len() == 0 {
                    assert(all.len() == 1);
                } else {
                    assert(all.drop_last() =~= parts);
                }
            }
        }
    } else {
        assert(parts + duration_part(n as nat, unit, shown) =~= parts);
    }
    out.len() == 0
}

/// Format a duration (in seconds) into a human-readable uptime string,
/// such as `"1h 1m 1s"` or `"1d 1h"`.
pub fn format_duration(secs: u64) -> (s: String)
    ensures
        s@ == format_duration_spec(secs as nat),
{
    if secs == 0 {
        return string_from_chars(&['0', 's']);
    }
    let days = secs / 86400;
    let hours = (secs % 86400) / 3600;
    let minutes = (secs % 3600) / 60;
    let seconds = secs % 60;
    let mut out: Vec<char> = Vec::new();
    let ghost p0: Seq<Seq<char>> = seq![];
    assert(out@ =~= join(p0, seq![' ']));
    push_duration_part(&mut out, Ghost(p0), days, 'd', days > 0);
    let ghost p1 = p0 + duration_part(days as nat, 'd', days > 0);
    push_duration_part(&mut out, Ghost(p1), hours, 'h', hours > 0);
    let ghost p2 = p1 + duration_part(hours as nat, 'h', hours > 0);
    push_duration_part(&mut out, Ghost(p2), minutes, 'm', minutes > 0);
    let ghost p3 = p2 + duration_part(minutes as nat, 'm', minutes > 0);
    push_duration_part(&mut out, Ghost(p3), seconds, 's', seconds > 0 && days == 0);
    let ghost p4 = p3 + duration_part(seconds as nat, 's', seconds > 0 && days == 0);
    assert(p4 =~= duration_parts(secs as nat));
    string_from_chars(out.as_slice())
}

/// Whether chrono's `DateTime::from_timestamp` accepts `secs` and `nanos`:
/// dates from year -262143 to 262142, and a nanosecond part under one
/// second, or under two on the last second of a minute (a leap second).
pub open spec fn chrono_instant(secs: int, nanos: int) -> bool {
    &&& -8334601228800 <= secs <= 8210266876799
    &&& (nanos < 1_000_000_000 || (nanos < 2_000_000_000 && secs % 60 == 59))
}

/// Unix seconds whose local date falls in the years 0 to 9999 under any
/// offset of less than a day (0000-01-02 up to 9999-12-31, both UTC).
pub open spec fn four_digit_year_instant(secs: int) -> bool {
    -62167132800 <= secs < 253402214400
}

/// The proleptic Gregorian `(year, month, day)` of a day number counted
/// from 1970-01-01.
pub open spec fn civil_from_days(days: int) -> (int, int, int) {
    let z = days + 719468;
    let era = z / 146097;
    let doe = z - era * 146097;
    let yoe = (doe - doe / 1460 + doe / 36524 - doe / 146096) / 365;
    let doy = doe - (365 * yoe + yoe / 4 - yoe / 100);
    let mp = (5 * doy + 2) / 153;
    let d = doy - (153 * mp + 2) / 5 + 1;
    let m = if mp < 10 {
        mp + 3
    } else {
        mp - 9
    };
    (yoe + era * 400 + (if m <= 2 {
        1int
    } else {
        0int
    }), m, d)
}

/// A number below 100 as two digits.
pub open spec fn two_digits(n: int) -> Seq<char> {
    seq![digit_char((n / 10) as nat), digit_char((n % 10) as nat)]
}

/// A number below 10000 as four digits.
pub open spec fn four_digits(n: int) -> Seq<char> {
    two_digits(n / 100) + two_digits(n % 100)
}

/// `YYYY-MM-DD HH:MM:SS` of the instant `secs` seen at `offset` seconds
/// east of UTC; on a leap second (`leap`) the seconds read one more.
pub open spec fn wall_clock_text(secs: int, offset: int, leap: bool) -> Seq<char> {
    let t = secs + offset;
    let (y, m, d) = civil_from_days(t / 86400);
    let sod = t % 86400;
    four_digits(y) + seq!['-'] + two_digits(m) + seq!['-'] + two_digits(d) + seq![' ']
        + two_digits(sod / 3600) + seq![':'] + two_digits(sod % 3600 / 60) + seq![':']
        + two_digits(sod % 60 + (if leap {
        1int
    } else {
        0int
    }))
}

/// `+HH:MM` (or `-HH:MM`): an offset in seconds east of UTC, rounded to
/// the nearest minute.
pub open spec fn offset_text(offset: int) -> Seq<char> {
    let a = if offset < 0 {
        -offset
    } else {
        offset
    };
    let minutes = (a + 30) / 60;
    seq![if offset < 0 {
        '-'
    } else {
        '+'
    }] + two_digits(minutes / 60) + seq![':'] + two_digits(minutes % 60)
}

/// `s` is the `YYYY-MM-DD HH:MM:SS` text of the instant `secs` at some
/// local offset of less than a day.
pub open spec fn local_wall_clock(s: Seq<char>, secs: int, leap: bool) -> bool {
    exists|offset: int| -86400 < offset < 86400 && s == #[trigger] wall_clock_text(secs, offset, leap)
}

/// `s` is `YYYY-MM-DD HH:MM:SS +HH:MM` of the instant `secs` at some local
/// offset of less than a day.
pub open spec fn local_wall_clock_with_offset(s: Seq<char>, secs: int, leap: bool) -> bool {
    exists|offset: int|
        -86400 < offset < 86400 && s == #[trigger] wall_clock_text(secs, offset, leap) + seq![' ']
            + offset_text(offset)
}

/// A Unix time in the machine's time zone, formatted with `fmt`, or
/// `None` when it maps to no single local time (chrono's `Local` time
/// zone, `TimeZone::timestamp_opt`, then `DelayedFormat`'s text).
/// `timestamp_opt` gives a time exactly when `DateTime::from_timestamp`
/// accepts the instant, and the local time is the instant shifted by a
/// `FixedOffset`, which is less than a day. For the two formats used
/// here, and local years 0 to 9999, the text is the zero-padded fields.
/// Which offset the machine's time zone picks is left unsaid.
/// Only the two formats used here are admitted: `to_string` panics on the
/// error item that a malformed format string becomes.
#[verifier::external_body]
fn local_time_text(secs: i64, nanos: u32, fmt: &str) -> (r: Option<String>)
    requires
        fmt@ == "%Y-%m-%d %H:%M:%S"@ || fmt@ == "%Y-%m-%d %H:%M:%S %:z"@,
    ensures
        r is Some <==> chrono_instant(secs as int, nanos as int),
        r is Some && four_digit_year_instant(secs as int) && fmt@ == "%Y-%m-%d %H:%M:%S"@
            ==> local_wall_clock(r->0@, secs as int, nanos >= 1_000_000_000),
        r is Some && four_digit_year_instant(secs as int) && fmt@ == "%Y-%m-%d %H:%M:%S %:z"@
            ==> local_wall_clock_with_offset(r->0@, secs as int, nanos >= 1_000_000_000),
{
    match chrono::TimeZone::timestamp_opt(&chrono::Local, secs, nanos) {
        chrono::LocalResult::Single(dt) => Some(dt.format(fmt).to_string()),
        _ => None,
    }
}

/// What a formatted time shows: the text, or `invalid timestamp`.
pub open spec fn shown_time(t: Option<Seq<char>>) -> Seq<char> {
    match t {
        Some(s) => s,
        None => "invalid timestamp"@,
    }
}

/// A formatted local time, or `invalid timestamp` when there was none.
pub fn time_or_invalid(t: Option<String>) -> (r: String)
    ensures
        r@ == shown_time(match t {
            Some(s) => Some(s@),
            None => None,
        }),
{
    match t {
        Some(s) => s,
        None => owned("invalid timestamp"),
    }
}

/// Format a Unix timestamp (seconds) as local `YYYY-MM-DD HH:MM:SS`, or
/// `invalid timestamp` outside chrono's range. Which local offset applies
/// depends on the machine's time zone.
pub fn format_timestamp(secs: i64) -> (s: String)
    ensures
        !chrono_instant(secs as int, 0) ==> s@ == "invalid timestamp"@,
        four_digit_year_instant(secs as int) ==> local_wall_clock(s@, secs as int, false),
{
    time_or_invalid(local_time_text(secs, 0, "%Y-%m-%d %H:%M:%S"))
}

/// Format a Unix timestamp (seconds) as local time with the offset
/// (`YYYY-MM-DD HH:MM:SS +HH:MM`), or `invalid timestamp`.
pub fn format_timestamp_tz(secs: i64) -> (s: String)
    ensures
        !chrono_instant(secs as int, 0) ==> s@ == "invalid timestamp"@,
        four_digit_year_instant(secs as int) ==> local_wall_clock_with_offset(s@, secs as int, false),
{
    time_or_invalid(local_time_text(secs, 0, "%Y-%m-%d %H:%M:%S %:z"))
}

/// Format an instant as local `YYYY-MM-DD HH:MM:SS`; an instant outside
/// chrono's range shows as `invalid timestamp`.
pub fn format_datetime_utc(dt: &Timestamp) -> (s: String)
    ensures
        !chrono_instant(dt.secs as int, dt.nanos as int) ==> s@ == "invalid timestamp"@,
        chrono_instant(dt.secs as int, dt.nanos as int) && four_digit_year_instant(dt.secs as int)
            ==> local_wall_clock(s@, dt.secs as int, dt.nanos >= 1_000_000_000),
{
    time_or_invalid(local_time_text(dt.secs, dt.nanos, "%Y-%m-%d %H:%M:%S"))
}

/// `"{n} {unit} ago"`, with the unit in the plural unless `n == 1`.
pub open spec fn ago_text(n: nat, unit: Seq<char>) -> Seq<char> {
    decimal(n) + seq![' '] + unit + (if n == 1 {
        seq![]
    } else {
        seq!['s']
    }) + seq![' ', 'a', 'g', 'o']
}

/// What `format_time_ago` returns for `elapsed` whole seconds, with
/// `absolute` the timestamp text used beyond a month.
pub open spec fn format_time_ago_spec(elapsed: int, absolute: Seq<char>) -> Seq<char> {
    let mins = elapsed / 60;
    let hours = elapsed / 3600;
    let days = elapsed / 86400;
    if elapsed < 60 {
        seq!['j', 'u', 's', 't', ' ', 'n', 'o', 'w']
    } else if mins < 60 {
        ago_text(mins as nat, seq!['m', 'i', 'n', 'u', 't', 'e'])
    } else if hours < 24 {
        ago_text(hours as nat, seq!['h', 'o', 'u', 'r'])
    } else if days < 30 {
        ago_text(days as nat, seq!['d', 'a', 'y'])
    } else {
        absolute
    }
}

fn push_ago(out: &mut Vec<char>, n: u64, unit: &[char])
    ensures
        final(out)@ == old(out)@ + ago_text(n as nat, unit@),
{
    let ghost start = out@;
    push_decimal(out, n as u128);
    out.push(' ');
    push_all(out, unit);
    if n != 1 {
        out.push('s');
    }
    push_all(out, &[' ', 'a', 'g', 'o']);
    assert(out@ =~= start + ago_text(n as nat, unit@));
}

/// Format how long ago something happened as a relative time string
/// (e.g. `"2 hours ago"`), from the whole seconds elapsed since then;
/// beyond 30 days the given absolute timestamp text is returned.
pub fn format_time_ago(elapsed_secs: i64, absolute: &str) -> (s: String)
    ensures
        s@ == format_time_ago_spec(elapsed_secs as int, absolute@),
{
    let mut out: Vec<char> = Vec::new();
    if elapsed_secs < 60 {
        push_all(&mut out, &['j', 'u', 's', 't', ' ', 'n', 'o', 'w']);
    } else if elapsed_secs / 60 < 60 {
        push_ago(&mut out, (elapsed_secs / 60) as u64, &['m', 'i', 'n', 'u', 't', 'e']);
    } else if elapsed_secs / 3600 < 24 {
        push_ago(&mut out, (elapsed_secs / 3600) as u64, &['h', 'o', 'u', 'r']);
    } else if elapsed_secs / 86400 < 30 {
        push_ago(&mut out, (elapsed_secs / 86400) as u64, &['d', 'a', 'y']);
    } else {
        return absolute.to_owned();
    }
    assert(out@ =~= format_time_ago_spec(elapsed_secs as int, absolute@));
    string_from_chars(out.as_slice())
}

/// The display width of one character as `unicode-width` reports it
/// (`None` for control characters).
pub uninterp spec fn char_width(c: char) -> Option<usize>;

/// The display width of a string as `unicode-width` reports it.
pub uninterp spec fn str_width(s: Seq<char>) -> usize;

/// Printable ASCII: the characters from the space to the tilde.
pub open spec fn is_printable_ascii(c: char) -> bool {
    ' ' <= c <= '~'
}

/// Every character is printable ASCII or the ellipsis.
pub open spec fn is_plain_text(s: Seq<char>) -> bool {
    forall|i: int| 0 <= i < s.len() ==> is_printable_ascii(#[trigger] s[i]) || s[i] == '…'
}

/// `UnicodeWidthChar::width`. The table lookup behind it is not restated here;
/// what is stated is the ASCII range, which the crate's source decides before
/// any table: printable ASCII has width 1, and the C0 and C1 control ranges
/// have no width.
#[verifier::external_body]
fn char_display_width(c: char) -> (w: Option<usize>)
    ensures
        w == char_width(c),
        is_printable_ascii(c) ==> w == Some(1usize),
        c == '…' ==> w == Some(1usize),
        (c < ' ' || ('\u{7f}' <= c && c < '\u{a0}')) ==> w is None,
{
    unicode_width::UnicodeWidthChar::width(c)
}

/// `k` spaces.
pub open spec fn spaces(k: nat) -> Seq<char> {
    Seq::new(k, |i: int| ' ')
}

/// `UnicodeWidthStr::width`. Its ligature and emoji rules are not restated;
/// what is stated is that a string of printable ASCII characters and
/// ellipses (`U+2026`, width 1 outside East Asian contexts) is as wide as it
/// is long, each such character adding one column with no ligature, and
/// that trailing spaces add one column each: the crate sums the widths from
/// the last character back, and a space (below `U+00A0`) counts 1 and
/// leaves the state as at the end of a string.
#[verifier::external_body]
fn str_display_width(s: &str) -> (w: usize)
    ensures
        w == str_width(s@),
        is_plain_text(s@) ==> w == s@.len(),
        forall|t: Seq<char>, k: nat|
            #![trigger str_width(t), spaces(k)]
            s@ == t + spaces(k) && str_width(t) + k <= usize::MAX ==> w == str_width(t) + k,
{
    unicode_width::UnicodeWidthStr::width(s)
}

/// The width that the truncation loops count for a character.
pub open spec fn counted_width(c: char) -> nat {
    match char_width(c) {
        Some(w) => w as nat,
        None => 0,
    }
}

/// The counted width of the first `k` characters.
pub open spec fn prefix_width(s: Seq<char>, k: nat) -> nat
    decreases k,
{
    if k == 0 || k > s.len() {
        0
    } else {
        prefix_width(s, (k - 1) as nat) + counted_width(s[k - 1])
    }
}

/// The length of the longest prefix, scanned from position `k`, whose
/// counted width stays within `target`.
pub open spec fn fitting_prefix_len(s: Seq<char>, target: nat, k: nat) -> nat
    decreases s.len() - k,
{
    if k >= s.len() {
        s.len()
    } else if prefix_width(s, k + 1) > target {
        k
    } else {
        fitting_prefix_len(s, target, k + 1)
    }
}

/// The position of the last space among the first `k` characters.
pub open spec fn last_space_before(s: Seq<char>, k: nat) -> Option<nat>
    decreases k,
{
    if k == 0 || k > s.len() {
        None
    } else if s[k - 1] == ' ' {
        Some((k - 1) as nat)
    } else {
        last_space_before(s, (k - 1) as nat)
    }
}

/// Where a string is cut when its first `k` characters fit: after them,
/// unless that would split a word that a space before it begins, in which
/// case at that space.
pub open spec fn word_cut(s: Seq<char>, k: nat) -> nat {
    if k < s.len() && s[k as int] != ' ' {
        match last_space_before(s, k) {
            Some(j) => j,
            None => k,
        }
    } else {
        k
    }
}

/// What `truncate_str` returns.
pub open spec fn truncate_str_spec(s: Seq<char>, max_width: nat) -> Seq<char> {
    if max_width == 0 {
        seq![]
    } else if str_width(s) <= max_width {
        s
    } else {
        s.take(word_cut(s, fitting_prefix_len(s, (max_width - 1) as nat, 0)) as int).push('…')
    }
}

/// The counted width of the characters from position `k` to the end.
pub open spec fn suffix_width(s: Seq<char>, k: nat) -> nat
    decreases s.len() - k,
{
    if k >= s.len() {
        0
    } else {
        counted_width(s[k as int]) + suffix_width(s, k + 1)
    }
}

/// Scanning backwards from position `k` (exclusive), the start of the
/// longest suffix whose counted width stays within `target`; `None` when the
/// whole sequence fits.
pub open spec fn fitting_suffix_start(s: Seq<char>, target: nat, k: nat) -> Option<nat>
    decreases k,
{
    if k == 0 || k > s.len() {
        None
    } else if suffix_width(s, (k - 1) as nat) > target {
        Some(k)
    } else {
        fitting_suffix_start(s, target, (k - 1) as nat)
    }
}

/// What `truncate_str_left` returns.
pub open spec fn truncate_str_left_spec(s: Seq<char>, max_width: nat) -> Seq<char> {
    if max_width == 0 {
        seq![]
    } else if str_width(s) <= max_width {
        s
    } else {
        match fitting_suffix_start(s, max_width, s.len()) {
            Some(start) => seq!['…'] + s.skip(start as int),
            None => s,
        }
    }
}

/// What `pad_or_truncate` returns.
pub open spec fn pad_or_truncate_spec(s: Seq<char>, max_width: nat) -> Seq<char> {
    let t = truncate_str_spec(s, max_width);
    if str_width(t) < max_width {
        t + spaces((max_width - str_width(t)) as nat)
    } else {
        t
    }
}

/// The counted width of a prefix grows with its length.
proof fn lemma_prefix_width_monotone(s: Seq<char>, j: nat, k: nat)
    requires
        j <= k <= s.len(),
    ensures
        prefix_width(s, j) <= prefix_width(s, k),
    decreases k - j,
{
    if j < k {
        lemma_prefix_width_monotone(s, j, (k - 1) as nat);
    }
}

/// The counted width of the first `k` characters depends on those alone.
proof fn lemma_prefix_width_agree(a: Seq<char>, b: Seq<char>, k: nat)
    requires
        k <= a.len(),
        k <= b.len(),
        forall|i: int| 0 <= i < k ==> a[i] == b[i],
    ensures
        prefix_width(a, k) == prefix_width(b, k),
    decreases k,
{
    if k > 0 {
        lemma_prefix_width_agree(a, b, (k - 1) as nat);
    }
}

/// The longest prefix whose counted width stays within `target`: its
/// length and its width.
fn fitting_prefix(s: &str, chars: &Vec<char>, target: usize) -> (r: (usize, usize))
    requires
        chars@ == s@,
    ensures
        r.0 == fitting_prefix_len(s@, target as nat, 0),
        r.1 == prefix_width(s@, r.0 as nat),
        r.0 <= s@.len(),
        r.1 <= target,
        r.0 < s@.len() ==> prefix_width(s@, (r.0 + 1) as nat) > target,
        is_plain_text(s@) ==> r.1 == r.0,
        is_plain_text(s@) && r.0 < s@.len() ==> r.0 + 1 > target,
{
    let mut current: usize = 0;
    let mut end: usize = 0;
    let mut stop = false;
    while !stop && end < chars.len()
        invariant
            chars@ == s@,
            end <= chars@.len(),
            current as nat == prefix_width(s@, end as nat),
            current <= target,
            fitting_prefix_len(s@, target as nat, 0) == fitting_prefix_len(
                s@,
                target as nat,
                end as nat,
            ),
            stop ==> end < chars@.len() && prefix_width(s@, (end + 1) as nat) > target,
            is_plain_text(s@) ==> current == end,
            stop && is_plain_text(s@) ==> end + 1 > target,
        decreases chars@.len() - end, if stop { 0int } else { 1int },
    {
        let w = match char_display_width(chars[end]) {
            Some(w) => w,
            None => 0,
        };
        assert(prefix_width(s@, (end + 1) as nat) == current + w);
        proof {
            if is_plain_text(s@) {
                assert(is_printable_ascii(s@[end as int]) || s@[end as int] == '…');
            }
        }
        if w > target - current {
            stop = true;
        } else {
            current = current + w;
            end = end + 1;
        }
    }
    assert(fitting_prefix_len(s@, target as nat, end as nat) == end);
    (end, current)
}

/// Truncate a string to fit within a given display width, respecting
/// Unicode and CJK character widths.
///
/// If the string's display width exceeds `max_width`, it is cut after the
/// longest prefix whose width leaves one column for the ellipsis (or, when
/// that would split a word after a space, at that space), and an ellipsis
/// (`…`) is appended, so that `truncate_str("hello world", 8)` is
/// `"hello…"`.
pub fn truncate_str(s: &str, max_width: usize) -> (r: String)
    ensures
        r@ == truncate_str_spec(s@, max_width as nat),
        is_plain_text(s@) ==> is_plain_text(r@) && r@.len() <= max_width,
        0 < max_width && str_width(s@) <= max_width ==> r@ == s@ && str_width(r@) <= max_width,
        0 < max_width < str_width(s@) ==> r@.len() > 0 && r@.last() == '…'
            && prefix_width(r@, (r@.len() - 1) as nat) <= max_width - 1,
{
    if max_width == 0 {
        return String::new();
    }
    let total_width = str_display_width(s);
    if total_width <= max_width {
        return s.to_owned();
    }
    let chars = chars_of(s);
    let target = max_width - 1;
    let (end, _) = fitting_prefix(s, &chars, target);
    let cut = word_cut_exec(chars.as_slice(), end);
    let mut out: Vec<char> = Vec::new();
    push_range(&mut out, chars.as_slice(), 0, cut);
    out.push('…');
    assert(out@ =~= truncate_str_spec(s@, max_width as nat));
    proof {
        lemma_prefix_width_monotone(s@, cut as nat, end as nat);
        lemma_prefix_width_agree(out@, s@, cut as nat);
        assert(out@.len() - 1 == cut);
    }
    string_from_chars(out.as_slice())
}

/// Where the string is cut when its first `k` characters fit.
fn word_cut_exec(s: &[char], k: usize) -> (r: usize)
    requires
        k <= s@.len(),
    ensures
        r == word_cut(s@, k as nat),
        r <= k,
{
    if k < s.len() && s[k] != ' ' {
        let mut j: usize = k;
        while j > 0 && s[j - 1] != ' '
            invariant
                j <= k,
                k <= s@.len(),
                last_space_before(s@, k as nat) == last_space_before(s@, j as nat),
            decreases j,
        {
            j = j - 1;
        }
        if j == 0 {
            k
        } else {
            j - 1
        }
    } else {
        k
    }
}

/// Truncate from the beginning of the string (useful for file paths).
///
/// If the string is too wide, the longest suffix that fits is kept and
/// prefixed with `…`, so that `truncate_str_left("hello world", 8)` is
/// `"…lo world"`.
pub fn truncate_str_left(s: &str, max_width: usize) -> (r: String)
    ensures
        r@ == truncate_str_left_spec(s@, max_width as nat),
{
    if max_width == 0 {
        return String::new();
    }
    let total_width = str_display_width(s);
    if total_width <= max_width {
        return s.to_owned();
    }
    let target = max_width;
    let chars = chars_of(s);
    let mut current: usize = 0;
    let mut i: usize = chars.len();
    while i > 0
        invariant
            chars@ == s@,
            i <= chars@.len(),
            current as nat == suffix_width(s@, i as nat),
            current <= target,
            target == max_width,
            max_width > 0,
            str_width(s@) > max_width,
            fitting_suffix_start(s@, target as nat, s@.len()) == fitting_suffix_start(
                s@,
                target as nat,
                i as nat,
            ),
        decreases i,
    {
        let w = match char_display_width(chars[i - 1]) {
            Some(w) => w,
            None => 0,
        };
        assert(suffix_width(s@, (i - 1) as nat) == w + current);
        if w > target - current {
            let mut out: Vec<char> = Vec::new();
            out.push('…');
            push_range(&mut out, chars.as_slice(), i, chars.len());
            assert(fitting_suffix_start(s@, target as nat, i as nat) == Some(i as nat));
            assert(fitting_suffix_start(s@, max_width as nat, s@.len()) == Some(i as nat));
            assert(chars@.subrange(i as int, chars@.len() as int) =~= s@.skip(i as int));
            assert(out@ =~= seq!['…'] + s@.skip(i as int));
            assert(out@ =~= truncate_str_left_spec(s@, max_width as nat));
            return string_from_chars(out.as_slice());
        }
        current = current + w;
        i = i - 1;
    }
    assert(fitting_suffix_start(s@, target as nat, 0) == None::<nat>);
    s.to_owned()
}

/// Pad or truncate a string to `max_width` display columns.
///
/// If shorter, pads with spaces on the right. If longer, truncates with `…`.
pub fn pad_or_truncate(s: &str, max_width: usize) -> (r: String)
    ensures
        r@ == pad_or_truncate_spec(s@, max_width as nat),
        is_plain_text(s@) ==> is_plain_text(r@) && r@.len() == max_width,
        str_width(truncate_str_spec(s@, max_width as nat)) <= max_width ==> str_width(r@) == max_width,
{
    let truncated = truncate_str(s, max_width);
    let width = str_display_width(truncated.as_str());
    if width < max_width {
        let mut out = chars_of(truncated.as_str());
        let ghost start = out@;
        let pad = max_width - width;
        let mut k: usize = 0;
        while k < pad
            invariant
                k <= pad,
                out@ == start + Seq::new(k as nat, |i: int| ' '),
            decreases pad - k,
        {
            out.push(' ');
            k = k + 1;
            assert(out@ =~= start + Seq::new(k as nat, |i: int| ' '));
        }
        proof {
            if is_plain_text(s@) {
                assert forall|i: int| 0 <= i < out@.len() implies is_printable_ascii(
                    #[trigger] out@[i],
                ) || out@[i] == '…' by {
                    if i >= start.len() {
                        assert(out@[i] == ' ');
                    } else {
                        assert(out@[i] == start[i]);
                    }
                }
            }
        }
        let r = string_from_chars(out.as_slice());
        assert(r@ =~= truncated@ + spaces(pad as nat));
        // The padded text measures `max_width` columns.
        let padded_width = str_display_width(r.as_str());
        assert(padded_width == max_width);
        r
    } else {
        proof {
            if is_plain_text(s@) {
                assert(width == truncated@.len());
            }
        }
        truncated
    }
}

/// A relative time counts whole units, never zero of them: under a minute
/// it is `just now`, then whole minutes up to an hour, whole hours up to a
/// day, whole days up to thirty days, and the absolute time beyond.
pub proof fn law_time_ago_counts_whole_units(elapsed: int, absolute: Seq<char>)
    ensures
        elapsed < 60 ==> format_time_ago_spec(elapsed, absolute) == "just now"@,
        60 <= elapsed < 3600 ==> 1 <= elapsed / 60 < 60
            && format_time_ago_spec(elapsed, absolute) == ago_text((elapsed / 60) as nat, "minute"@),
        3600 <= elapsed < 86400 ==> 1 <= elapsed / 3600 < 24
            && format_time_ago_spec(elapsed, absolute) == ago_text((elapsed / 3600) as nat, "hour"@),
        86400 <= elapsed < 2592000 ==> 1 <= elapsed / 86400 < 30
            && format_time_ago_spec(elapsed, absolute) == ago_text((elapsed / 86400) as nat, "day"@),
        2592000 <= elapsed ==> format_time_ago_spec(elapsed, absolute) == absolute,
{
    reveal_strlit("just now");
    reveal_strlit("minute");
    reveal_strlit("hour");
    reveal_strlit("day");
    assert("just now"@ =~= seq!['j', 'u', 's', 't', ' ', 'n', 'o', 'w']);
    assert("minute"@ =~= seq!['m', 'i', 'n', 'u', 't', 'e']);
    assert("hour"@ =~= seq!['h', 'o', 'u', 'r']);
    assert("day"@ =~= seq!['d', 'a', 'y']);
}

} // verus!
