//! Points in time as the client and the server exchange them, the length of
//! time between two of them, and how both are shown.

use vstd::prelude::*;
use crate::text::{
    decimal, digits, law_two_digits_read_back, push_signed, push_two_digits, read_decimal, two_digits,
};

verus! {

/// A moment with no time zone attached, counted from 1970-01-01 00:00:00:
/// whole seconds (negative before that moment) and the nanoseconds past them.
/// Nanoseconds of one second or more mark a leap second: the moment lies in
/// an extra second inserted after `seconds`.
#[derive(Clone, Copy, Debug, PartialEq, Eq, Structural)]
pub struct Timestamp {
    pub seconds: i64,
    pub nanos: u32,
}

/// Nanoseconds in one second.
pub const NANOS_PER_SECOND: i128 = 1_000_000_000;

/// Seconds in one day.
pub const SECONDS_PER_DAY: i64 = 86_400;

/// Division rounded toward zero, as Rust's `/` does on signed integers.
pub open spec fn quot(a: int, b: int) -> int
    recommends
        b > 0,
{
    if a >= 0 { a / b } else { -((-a) / b) }
}

/// The remainder that goes with `quot`, as Rust's `%` gives it: it has the sign of `a`.
pub open spec fn rem(a: int, b: int) -> int
    recommends
        b > 0,
{
    a - b * quot(a, b)
}

/// The one second that a leap second adds between two moments: when the
/// later one is at a later second of its day than a leap-second start, that
/// leap second lies between them; when it is at an earlier second of its day
/// and itself in a leap second, one second less lies between them.
pub open spec fn leap_adjustment(start: Timestamp, end: Timestamp) -> int {
    if second_of_day(end) > second_of_day(start) && start.nanos >= 1_000_000_000 {
        1
    } else if second_of_day(end) < second_of_day(start) && end.nanos >= 1_000_000_000 {
        -1
    } else {
        0
    }
}

/// The nanoseconds from `start` to `end`; negative when `end` comes first.
pub open spec fn nanos_between(start: Timestamp, end: Timestamp) -> int {
    (end.seconds - start.seconds + leap_adjustment(start, end)) * 1_000_000_000 + end.nanos
        - start.nanos
}

/// The whole seconds from `start` to `end`, the fraction dropped toward zero.
pub open spec fn whole_seconds_between(start: Timestamp, end: Timestamp) -> int {
    quot(nanos_between(start, end), 1_000_000_000)
}

/// A number of seconds as the client shows a duration: hours, minutes and
/// seconds, leaving out the hours when there are none, and the minutes too
/// when there are neither.
pub open spec fn duration_text(total: int) -> Seq<char> {
    let hours = quot(total, 3600);
    let mins = quot(rem(total, 3600), 60);
    let secs = rem(total, 60);
    if hours > 0 {
        decimal(hours) + "h "@ + decimal(mins) + "m "@ + decimal(secs) + "s"@
    } else if mins > 0 {
        decimal(mins) + "m "@ + decimal(secs) + "s"@
    } else {
        decimal(secs) + "s"@
    }
}

/// The seconds of the day that a timestamp falls in.
pub open spec fn second_of_day(t: Timestamp) -> nat {
    (t.seconds as int % 86_400) as nat
}

/// `HH:MM` of a timestamp.
pub open spec fn clock_minutes_text(t: Timestamp) -> Seq<char> {
    let s = second_of_day(t);
    two_digits(s / 3600) + ":"@ + two_digits((s % 3600) / 60)
}

/// The seconds shown for a timestamp: the second of its minute, and 60 in a
/// leap second.
pub open spec fn shown_second(t: Timestamp) -> nat {
    (second_of_day(t) % 60 + t.nanos / 1_000_000_000) as nat
}

/// `HH:MM:SS` of a timestamp.
pub open spec fn clock_text(t: Timestamp) -> Seq<char> {
    clock_minutes_text(t) + ":"@ + two_digits(shown_second(t))
}

impl Timestamp {
    /// A timestamp from whole seconds and the nanoseconds past them.
    pub fn new(seconds: i64, nanos: u32) -> (t: Timestamp)
        ensures
            t.seconds == seconds,
            t.nanos == nanos,
    {
        Timestamp { seconds, nanos }
    }
}

/// The whole seconds from `start` to `end`, the fraction dropped toward zero.
pub fn seconds_between(start: &Timestamp, end: &Timestamp) -> (total: i128)
    ensures
        total == whole_seconds_between(*start, *end),
{
    let start_of_day = second_of_day_exec(start);
    let end_of_day = second_of_day_exec(end);
    let leap: i128 = if end_of_day > start_of_day && start.nanos >= 1_000_000_000 {
        1
    } else if end_of_day < start_of_day && end.nanos >= 1_000_000_000 {
        -1
    } else {
        0
    };
    let nanos: i128 = (end.seconds as i128 - start.seconds as i128 + leap) * NANOS_PER_SECOND
        + end.nanos as i128 - start.nanos as i128;
    if nanos >= 0 {
        nanos / NANOS_PER_SECOND
    } else {
        let magnitude: i128 = 0 - nanos;
        0 - magnitude / NANOS_PER_SECOND
    }
}

/// The time from `start` to `end` as the client prints it, such as `1h 2m 3s`,
/// `4m 5s` or `6s`.
pub fn format_duration(start: &Timestamp, end: &Timestamp) -> (text: String)
    ensures
        text@ == duration_text(whole_seconds_between(*start, *end)),
{
    let total = seconds_between(start, end);
    let negative = total < 0;
    let magnitude: u128 = if negative { (0 - total) as u128 } else { total as u128 };
    let hours = magnitude / 3600;
    let mins = (magnitude % 3600) / 60;
    let secs = magnitude % 60;
    let ghost t = total as int;
    proof {
        reveal_strlit("h ");
        reveal_strlit("m ");
        reveal_strlit("s");
        if negative {
            assert(quot(t, 3600) == -(hours as int));
            assert(rem(t, 3600) == -((magnitude % 3600) as int));
            assert(quot(rem(t, 3600), 60) == -(mins as int));
            assert(rem(t, 60) == -(secs as int));
        } else {
            assert(quot(t, 3600) == hours as int);
            assert(rem(t, 3600) == (magnitude % 3600) as int);
            assert(quot(rem(t, 3600), 60) == mins as int);
            assert(rem(t, 60) == secs as int);
        }
    }
    let mut text = String::new();
    if !negative && hours > 0 {
        push_signed(&mut text, false, hours);
        text.append("h ");
        push_signed(&mut text, false, mins);
        text.append("m ");
        push_signed(&mut text, false, secs);
        text.append("s");
    } else if !negative && mins > 0 {
        push_signed(&mut text, false, mins);
        text.append("m ");
        push_signed(&mut text, false, secs);
        text.append("s");
    } else {
        push_signed(&mut text, negative, secs);
        text.append("s");
    }
    text
}

fn second_of_day_exec(t: &Timestamp) -> (s: u128)
    ensures
        s == second_of_day(*t),
        s < 86_400,
{
    let r = t.seconds % SECONDS_PER_DAY;
    let s: i64 = if r < 0 { r + SECONDS_PER_DAY } else { r };
    s as u128
}

/// `HH:MM` of a timestamp, as `%H:%M` prints it.
pub fn clock_minutes(t: &Timestamp) -> (text: String)
    ensures
        text@ == clock_minutes_text(*t),
{
    let s = second_of_day_exec(t);
    let mut text = String::new();
    push_two_digits(&mut text, s / 3600);
    text.append(":");
    push_two_digits(&mut text, (s % 3600) / 60);
    text
}

/// `HH:MM:SS` of a timestamp, as `%H:%M:%S` prints it.
pub fn clock(t: &Timestamp) -> (text: String)
    ensures
        text@ == clock_text(*t),
{
    let s = second_of_day_exec(t);
    let mut text = clock_minutes(t);
    text.append(":");
    push_two_digits(&mut text, s % 60 + (t.nanos / 1_000_000_000) as u128);
    text
}

/// A duration is shown exactly: the hours, minutes and seconds it is shown
/// with add back up to it, with minutes and seconds below sixty.
pub proof fn law_duration_parts(total: int)
    requires
        total >= 0,
    ensures
        quot(total, 3600) * 3600 + quot(rem(total, 3600), 60) * 60 + rem(total, 60) == total,
        0 <= quot(rem(total, 3600), 60) < 60,
        0 <= rem(total, 60) < 60,
{
    let h = total / 3600;
    let r = total % 3600;
    assert(total == h * 3600 + r && 0 <= r < 3600) by (nonlinear_arith)
        requires total >= 0, h == total / 3600, r == total % 3600;
    let m = r / 60;
    let s = r % 60;
    assert(r == m * 60 + s && 0 <= s < 60 && 0 <= m < 60) by (nonlinear_arith)
        requires 0 <= r < 3600, m == r / 60, s == r % 60;
    assert(total % 60 == s) by (nonlinear_arith)
        requires total == h * 3600 + m * 60 + s, 0 <= s < 60, h >= 0, m >= 0;
}

/// A moment that a date and time of day can be: nanoseconds below two
/// seconds, and one second or more only in a leap second, which comes at the
/// last second of a minute.
pub open spec fn is_valid(t: Timestamp) -> bool {
    &&& t.nanos < 2_000_000_000
    &&& t.nanos >= 1_000_000_000 ==> second_of_day(t) % 60 == 59
}

/// `a` is an earlier moment than `b`.
pub open spec fn earlier(a: Timestamp, b: Timestamp) -> bool {
    a.seconds < b.seconds || (a.seconds == b.seconds && a.nanos < b.nanos)
}

/// The time between two valid moments, the later one second, is never
/// negative, and the hours, minutes and seconds it is shown with add back up
/// to it.
pub proof fn law_ordered_duration_parts(start: Timestamp, end: Timestamp)
    requires
        is_valid(start),
        is_valid(end),
        !earlier(end, start),
    ensures
        whole_seconds_between(start, end) >= 0,
        ({
            let total = whole_seconds_between(start, end);
            &&& quot(total, 3600) * 3600 + quot(rem(total, 3600), 60) * 60 + rem(total, 60) == total
            &&& 0 <= quot(rem(total, 3600), 60) < 60
            &&& 0 <= rem(total, 60) < 60
        }),
{
    let ds = start.seconds as int / 86_400;
    let ss = start.seconds as int % 86_400;
    let de = end.seconds as int / 86_400;
    let se = end.seconds as int % 86_400;
    assert(start.seconds == ds * 86_400 + ss && 0 <= ss < 86_400) by (nonlinear_arith)
        requires ds == start.seconds as int / 86_400, ss == start.seconds as int % 86_400;
    assert(end.seconds == de * 86_400 + se && 0 <= se < 86_400) by (nonlinear_arith)
        requires de == end.seconds as int / 86_400, se == end.seconds as int % 86_400;
    assert(second_of_day(start) == ss);
    assert(second_of_day(end) == se);
    let delta = end.seconds - start.seconds;
    if delta > 0 && se < ss {
        // The end is on a later day, at an earlier second of its day.
        assert(de > ds) by (nonlinear_arith)
            requires end.seconds > start.seconds, start.seconds == ds * 86_400 + ss,
                end.seconds == de * 86_400 + se, 0 <= ss < 86_400, 0 <= se < 86_400, se < ss;
        assert(delta >= 86_400 + se - ss) by (nonlinear_arith)
            requires de > ds, delta == (de * 86_400 + se) - (ds * 86_400 + ss);
        if end.nanos >= 1_000_000_000 {
            // A leap second ends the minute: the start is at least a minute later in its day.
            assert(se % 60 == 59);
            assert(ss <= 86_399);
            assert(delta >= 60) by (nonlinear_arith)
                requires delta >= 86_400 + se - ss, se % 60 == 59, se < ss, ss <= 86_399, se >= 0;
        }
    }
    assert(nanos_between(start, end) > -1_000_000_000);
    law_duration_parts(whole_seconds_between(start, end));
}

/// The moment `shift` nanoseconds after `t`, for a moment outside any leap
/// second.
pub open spec fn shifted(t: Timestamp, shift: int) -> Timestamp {
    let instant = t.seconds * 1_000_000_000 + t.nanos + shift;
    Timestamp {
        seconds: (instant / 1_000_000_000) as i64,
        nanos: (instant % 1_000_000_000) as u32,
    }
}

/// The time between two moments outside leap seconds depends only on how far
/// apart they are: shifting both by the same amount leaves it, and so the
/// printed duration, unchanged.
pub proof fn law_duration_unchanged_by_shift(start: Timestamp, end: Timestamp, shift: int)
    requires
        start.nanos < 1_000_000_000,
        end.nanos < 1_000_000_000,
        i64::MIN <= (start.seconds * 1_000_000_000 + start.nanos + shift) / 1_000_000_000 <= i64::MAX,
        i64::MIN <= (end.seconds * 1_000_000_000 + end.nanos + shift) / 1_000_000_000 <= i64::MAX,
    ensures
        whole_seconds_between(shifted(start, shift), shifted(end, shift)) == whole_seconds_between(start, end),
        duration_text(whole_seconds_between(shifted(start, shift), shifted(end, shift)))
            == duration_text(whole_seconds_between(start, end)),
{
    let a = start.seconds * 1_000_000_000 + start.nanos + shift;
    let b = end.seconds * 1_000_000_000 + end.nanos + shift;
    let s2 = shifted(start, shift);
    let e2 = shifted(end, shift);
    assert(a == (a / 1_000_000_000) * 1_000_000_000 + a % 1_000_000_000 && 0 <= a % 1_000_000_000 < 1_000_000_000) by (nonlinear_arith);
    assert(b == (b / 1_000_000_000) * 1_000_000_000 + b % 1_000_000_000 && 0 <= b % 1_000_000_000 < 1_000_000_000) by (nonlinear_arith);
    assert(s2.seconds == a / 1_000_000_000 && s2.nanos == a % 1_000_000_000);
    assert(e2.seconds == b / 1_000_000_000 && e2.nanos == b % 1_000_000_000);
    assert(leap_adjustment(s2, e2) == 0);
    assert(leap_adjustment(start, end) == 0);
    assert(nanos_between(s2, e2) == b - a);
    assert(nanos_between(start, end) == b - a);
}

/// How a number of seconds is printed: a duration of an hour or more as its
/// whole hours, the minutes left over (below sixty) and the seconds left
/// over, as in `1h 2m 3s`; a duration under an hour but of a minute or more
/// as its whole minutes and the seconds left over, as in `30m 0s`; a shorter
/// one as its seconds; and a negative one as minus the seconds it lies below
/// a whole minute, as in `-40s`.
pub proof fn law_duration_text_parts(total: int)
    ensures
        total >= 3600 ==> duration_text(total) == digits((total / 3600) as nat) + "h "@
            + digits(((total % 3600) / 60) as nat) + "m "@ + digits((total % 60) as nat) + "s"@,
        60 <= total < 3600 ==> duration_text(total) == digits((total / 60) as nat) + "m "@
            + digits((total % 60) as nat) + "s"@,
        0 <= total < 60 ==> duration_text(total) == digits(total as nat) + "s"@,
        total < 0 ==> duration_text(total) == decimal(-((-total) % 60)) + "s"@,
{
    if total >= 0 {
        let h = total / 3600;
        let r = total % 3600;
        assert(total == h * 3600 + r && 0 <= r < 3600 && h >= 0) by (nonlinear_arith)
            requires total >= 0, h == total / 3600, r == total % 3600;
        assert(quot(total, 3600) == h);
        assert(rem(total, 3600) == r);
        let m = r / 60;
        assert(0 <= m < 60 && (r < 60 <==> m == 0)) by (nonlinear_arith)
            requires 0 <= r < 3600, m == r / 60;
        assert(quot(r, 60) == m);
        assert(rem(total, 60) == total % 60);
        assert(total < 3600 ==> h == 0 && r == total) by (nonlinear_arith)
            requires total >= 0, total == h * 3600 + r, 0 <= r < 3600, h >= 0;
        assert(total >= 3600 ==> h > 0) by (nonlinear_arith)
            requires total >= 0, total == h * 3600 + r, 0 <= r < 3600, h >= 0;
    } else {
        let a = -total;
        let h = a / 3600;
        let r = a % 3600;
        assert(a == h * 3600 + r && 0 <= r < 3600 && h >= 0) by (nonlinear_arith)
            requires a > 0, h == a / 3600, r == a % 3600;
        assert(quot(total, 3600) == -h);
        assert(rem(total, 3600) == -r);
        assert(quot(-r, 60) <= 0);
        assert(rem(total, 60) == -(a % 60));
    }
}

/// A clock face reads back as the time of day: `HH:MM:SS` has two digits of
/// hours below 24, of minutes below 60 and of seconds, separated by colons;
/// hours, minutes and seconds make up the second of the day that the moment
/// falls in, and a valid moment shows 60 seconds exactly in a leap second.
/// `HH:MM` is its first five characters.
pub proof fn law_clock_reads_back(t: Timestamp)
    ensures
        clock_text(t).len() == 8,
        clock_text(t)[2] == ':' && clock_text(t)[5] == ':',
        clock_minutes_text(t) == clock_text(t).subrange(0, 5),
        ({
            let hh = read_decimal(clock_text(t).subrange(0, 2));
            let mm = read_decimal(clock_text(t).subrange(3, 5));
            let ss = read_decimal(clock_text(t).subrange(6, 8));
            &&& 0 <= hh < 24
            &&& 0 <= mm < 60
            &&& t.nanos < 1_000_000_000 ==> 0 <= ss < 60 && hh * 3600 + mm * 60 + ss == t.seconds as int % 86_400
            &&& is_valid(t) && t.nanos >= 1_000_000_000 ==> ss == 60 && hh * 3600 + mm * 60 + 59 == t.seconds as int % 86_400
        }),
{
    reveal_strlit(":");
    let s = second_of_day(t);
    let h = s / 3600;
    let m = (s % 3600) / 60;
    let sec = shown_second(t);
    assert(h < 24 && m < 60 && h * 3600 + m * 60 + s % 60 == s) by (nonlinear_arith)
        requires s < 86_400, h == s / 3600, m == (s % 3600) / 60;
    assert(sec < 100) by {
        assert(t.nanos / 1_000_000_000 <= 4);
    }
    law_two_digits_read_back(h);
    law_two_digits_read_back(m);
    law_two_digits_read_back(sec);
    let c = clock_text(t);
    assert(c.subrange(0, 2) =~= two_digits(h));
    assert(c.subrange(3, 5) =~= two_digits(m));
    assert(c.subrange(6, 8) =~= two_digits(sec));
    assert(clock_minutes_text(t) =~= c.subrange(0, 5));
}

/// The whole seconds between two moments outside leap seconds are the
/// seconds fully elapsed from the one to the other: when the end is not
/// earlier, the largest count of whole seconds that fits in the time between
/// them; when it is earlier, minus that count for the time back.
pub proof fn law_whole_seconds_elapsed(start: Timestamp, end: Timestamp)
    requires
        start.nanos < 1_000_000_000,
        end.nanos < 1_000_000_000,
    ensures
        ({
            let elapsed = (end.seconds * 1_000_000_000 + end.nanos) - (start.seconds * 1_000_000_000 + start.nanos);
            let w = whole_seconds_between(start, end);
            &&& elapsed >= 0 ==> w * 1_000_000_000 <= elapsed < (w + 1) * 1_000_000_000
            &&& elapsed < 0 ==> (w - 1) * 1_000_000_000 < elapsed <= w * 1_000_000_000
        }),
{
    let elapsed = (end.seconds * 1_000_000_000 + end.nanos) - (start.seconds * 1_000_000_000 + start.nanos);
    assert(leap_adjustment(start, end) == 0);
    assert(nanos_between(start, end) == elapsed);
    if elapsed >= 0 {
        let q = elapsed / 1_000_000_000;
        assert(q * 1_000_000_000 <= elapsed < (q + 1) * 1_000_000_000) by (nonlinear_arith)
            requires elapsed >= 0, q == elapsed / 1_000_000_000;
    } else {
        let q = (-elapsed) / 1_000_000_000;
        assert(q * 1_000_000_000 <= -elapsed < (q + 1) * 1_000_000_000) by (nonlinear_arith)
            requires elapsed < 0, q == (-elapsed) / 1_000_000_000;
    }
}

} // verus!
