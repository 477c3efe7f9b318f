//! Time since boot, from the real-time clock's calendar readings.
//!
//! A reading is held as `chrono` holds a `NaiveDateTime`: the day counted from
//! January 1 of year 1 (day 1), the second of that day, and the nanosecond within the
//! second (at or above 10^9 only during a leap second, which `chrono` places at
//! the 59th second of a minute). The difference of two readings is `chrono`'s,
//! and is stated here as `chrono`'s source computes it.
use vstd::prelude::*;
use chrono::{NaiveDate, NaiveTime};

verus! {

/// Days from the common era of `chrono`'s earliest date (January 1, 262144 BCE) and
/// latest date (December 31, 262142 CE).
pub const MIN_DAYS_FROM_CE: i32 = -95_746_129;
pub const MAX_DAYS_FROM_CE: i32 = 95_745_399;

/// A calendar reading without time zone.
#[derive(Clone, Copy, Debug, PartialEq, Eq, Structural)]
pub struct DateTime {
    pub days_from_ce: i32,
    pub secs_from_midnight: u32,
    pub nanos: u32,
}

impl DateTime {
    /// The reading denotes a date and time that `chrono` can represent.
    pub open spec fn wf(self) -> bool {
        &&& MIN_DAYS_FROM_CE <= self.days_from_ce <= MAX_DAYS_FROM_CE
        &&& self.secs_from_midnight < 86_400
        &&& self.nanos < 2_000_000_000
        &&& self.nanos >= 1_000_000_000 ==> self.secs_from_midnight % 60 == 59
    }

    /// Whether the reading denotes a date and time that `chrono` can represent.
    pub fn is_valid(&self) -> (b: bool)
        ensures
            b == self.wf(),
    {
        MIN_DAYS_FROM_CE <= self.days_from_ce && self.days_from_ce <= MAX_DAYS_FROM_CE
            && self.secs_from_midnight < 86_400 && self.nanos < 2_000_000_000 && (self.nanos
            < 1_000_000_000 || self.secs_from_midnight % 60 == 59)
    }
}

/// The second `chrono` adds when one side of the difference lies inside a leap
/// second: a leap second is counted only once it has passed.
pub open spec fn leap_adjust(now: DateTime, earlier: DateTime) -> int {
    if now.secs_from_midnight > earlier.secs_from_midnight && earlier.nanos >= 1_000_000_000 {
        1
    } else if now.secs_from_midnight < earlier.secs_from_midnight && now.nanos >= 1_000_000_000 {
        -1
    } else {
        0
    }
}

/// The nanoseconds from `earlier` to `now`, as `NaiveDateTime - NaiveDateTime`
/// counts them: whole days, then seconds of the day with the leap-second
/// adjustment, then the nanosecond parts.
pub open spec fn nanos_between(now: DateTime, earlier: DateTime) -> int {
    (now.days_from_ce - earlier.days_from_ce) * 86_400_000_000_000int + (now.secs_from_midnight
        - earlier.secs_from_midnight + leap_adjust(now, earlier)) * 1_000_000_000int + (now.nanos
        - earlier.nanos)
}

/// `a / d` rounded toward zero.
pub open spec fn div_toward_zero(a: int, d: int) -> int
    recommends
        d > 0,
{
    if a >= 0 {
        a / d
    } else {
        -((-a) / d)
    }
}

/// `(now - earlier).num_milliseconds()`: the whole milliseconds from `earlier` to
/// `now`, truncated toward zero.
pub open spec fn millis_between_spec(now: DateTime, earlier: DateTime) -> int {
    div_toward_zero(nanos_between(now, earlier), 1_000_000)
}

/// `NaiveDateTime - NaiveDateTime` followed by `TimeDelta::num_milliseconds`, on
/// the `NaiveDateTime`s that the two readings denote.
#[verifier::external_body]
fn millis_between(now: DateTime, earlier: DateTime) -> (ms: i64)
    requires
        now.wf(),
        earlier.wf(),
    ensures
        ms == div_toward_zero(nanos_between(now, earlier), 1_000_000),
{
    let a = NaiveDate::from_num_days_from_ce_opt(now.days_from_ce).unwrap().and_time(
        NaiveTime::from_num_seconds_from_midnight_opt(now.secs_from_midnight, now.nanos).unwrap(),
    );
    let b = NaiveDate::from_num_days_from_ce_opt(earlier.days_from_ce).unwrap().and_time(
        NaiveTime::from_num_seconds_from_midnight_opt(earlier.secs_from_midnight, earlier.nanos).unwrap(),
    );
    (a - b).num_milliseconds()
}

/// The clock state kept from boot: the reading taken at initialisation and the
/// clock it was read from.
pub struct LocalRtc<R> {
    pub init_time: DateTime,
    pub rtc: R,
}

impl<R> LocalRtc<R> {
    /// Keeps `rtc` with its reading at boot.
    pub fn new(rtc: R, init_time: DateTime) -> (l: Self)
        ensures
            l.init_time == init_time,
            l.rtc == rtc,
    {
        LocalRtc { init_time, rtc }
    }
}

/// Milliseconds from boot to the reading `now`; 0 for the boot reading itself.
pub fn get_ticks_since_boot<R>(local: &LocalRtc<R>, now: DateTime) -> (ms: i64)
    requires
        local.init_time.wf(),
        now.wf(),
    ensures
        ms == millis_between_spec(now, local.init_time),
        now == local.init_time ==> ms == 0,
{
    millis_between(now, local.init_time)
}

/// The reading is not inside a leap second.
pub open spec fn outside_leap_second(d: DateTime) -> bool {
    d.nanos < 1_000_000_000
}

/// `a` is not later than `b`, in `chrono`'s order of readings (day, then second,
/// then nanosecond).
pub open spec fn not_later(a: DateTime, b: DateTime) -> bool {
    ||| a.days_from_ce < b.days_from_ce
    ||| a.days_from_ce == b.days_from_ce && a.secs_from_midnight < b.secs_from_midnight
    ||| a.days_from_ce == b.days_from_ce && a.secs_from_midnight == b.secs_from_midnight
        && a.nanos <= b.nanos
}

/// The position of a reading outside a leap second on a nanosecond time line:
/// days, seconds of the day and nanoseconds, counted from day 0.
pub open spec fn nanos_position(d: DateTime) -> int {
    d.days_from_ce * 86_400_000_000_000int + d.secs_from_midnight * 1_000_000_000int + d.nanos
}

proof fn lemma_nanos_between_linear(now: DateTime, earlier: DateTime)
    requires
        outside_leap_second(now),
        outside_leap_second(earlier),
    ensures
        nanos_between(now, earlier) == nanos_position(now) - nanos_position(earlier),
{
}

proof fn lemma_position_ordered(a: DateTime, b: DateTime)
    requires
        a.wf(),
        b.wf(),
        outside_leap_second(a),
        outside_leap_second(b),
        not_later(a, b),
    ensures
        nanos_position(a) <= nanos_position(b),
{
    if a.days_from_ce < b.days_from_ce {
        let da = a.days_from_ce as int;
        let db = b.days_from_ce as int;
        assert(da * 86_400_000_000_000int + 86_400_000_000_000int <= db * 86_400_000_000_000int)
            by (nonlinear_arith)
            requires
                da < db,
        ;
    }
}

proof fn lemma_div_toward_zero_monotonic(a: int, b: int, d: int)
    requires
        a <= b,
        d > 0,
    ensures
        div_toward_zero(a, d) <= div_toward_zero(b, d),
{
    if a >= 0 {
        vstd::arithmetic::div_mod::lemma_div_is_ordered(a, b, d);
    } else if b >= 0 {
        vstd::arithmetic::div_mod::lemma_div_pos_is_pos(-a, d);
        vstd::arithmetic::div_mod::lemma_div_pos_is_pos(b, d);
    } else {
        vstd::arithmetic::div_mod::lemma_div_is_ordered(-b, -a, d);
    }
}

proof fn lemma_div_toward_zero_exact(m: int, d: int)
    requires
        d > 0,
    ensures
        div_toward_zero(m * d, d) == m,
{
    if m >= 0 {
        vstd::arithmetic::div_mod::lemma_div_multiples_vanish(m, d);
        assert(m * d == d * m) by (nonlinear_arith);
        assert(m * d >= 0) by (nonlinear_arith)
            requires
                m >= 0,
                d > 0,
        ;
    } else {
        vstd::arithmetic::div_mod::lemma_div_multiples_vanish(-m, d);
        assert(m * d < 0 && -(m * d) == d * (-m)) by (nonlinear_arith)
            requires
                m < 0,
                d > 0,
        ;
    }
}

/// Rounding toward zero: the quotient is the whole number of `d`s in `a`, on the
/// side of zero.
proof fn lemma_div_toward_zero_bounds(a: int, d: int)
    requires
        d > 0,
    ensures
        a >= 0 ==> div_toward_zero(a, d) * d <= a < (div_toward_zero(a, d) + 1) * d,
        a < 0 ==> (div_toward_zero(a, d) - 1) * d < a <= div_toward_zero(a, d) * d,
{
    if a >= 0 {
        vstd::arithmetic::div_mod::lemma_fundamental_div_mod(a, d);
        vstd::arithmetic::div_mod::lemma_mod_bound(a, d);
        let q = a / d;
        let r = a % d;
        assert(q * d <= a < (q + 1) * d) by (nonlinear_arith)
            requires
                a == d * q + r,
                0 <= r < d,
        ;
    } else {
        vstd::arithmetic::div_mod::lemma_fundamental_div_mod(-a, d);
        vstd::arithmetic::div_mod::lemma_mod_bound(-a, d);
        let q = (-a) / d;
        let r = (-a) % d;
        assert((-q - 1) * d < a <= (-q) * d) by (nonlinear_arith)
            requires
                -a == d * q + r,
                0 <= r < d,
        ;
    }
}

/// Law: time since boot is the number of whole milliseconds that `chrono` counts
/// from the boot reading to `now`, rounded toward zero: never more than has
/// elapsed, and short of it by less than one millisecond.
pub proof fn lemma_ticks_since_boot_counts_elapsed_millis(boot: DateTime, now: DateTime)
    requires
        boot.wf(),
        now.wf(),
    ensures
        ({
            let ms = millis_between_spec(now, boot);
            let elapsed = nanos_between(now, boot);
            &&& elapsed >= 0 ==> ms * 1_000_000 <= elapsed < (ms + 1) * 1_000_000
            &&& elapsed < 0 ==> (ms - 1) * 1_000_000 < elapsed <= ms * 1_000_000
        }),
{
    lemma_div_toward_zero_bounds(nanos_between(now, boot), 1_000_000);
}

/// Law: outside leap seconds, time since boot is the time elapsed on the
/// nanosecond time line between the two readings, in whole milliseconds rounded
/// toward zero, whatever the sub-millisecond parts of the readings.
pub proof fn lemma_ticks_since_boot_on_time_line(boot: DateTime, now: DateTime)
    requires
        boot.wf(),
        now.wf(),
        outside_leap_second(boot),
        outside_leap_second(now),
    ensures
        ({
            let ms = millis_between_spec(now, boot);
            let elapsed = nanos_position(now) - nanos_position(boot);
            &&& elapsed >= 0 ==> ms * 1_000_000 <= elapsed < (ms + 1) * 1_000_000
            &&& elapsed < 0 ==> (ms - 1) * 1_000_000 < elapsed <= ms * 1_000_000
        }),
{
    lemma_nanos_between_linear(now, boot);
    lemma_ticks_since_boot_counts_elapsed_millis(boot, now);
}

/// Law: outside leap seconds, time since boot never runs backwards: a reading that
/// is not earlier than another gives no fewer milliseconds.
pub proof fn lemma_ticks_since_boot_monotonic(boot: DateTime, t1: DateTime, t2: DateTime)
    requires
        boot.wf(),
        t1.wf(),
        t2.wf(),
        outside_leap_second(boot),
        outside_leap_second(t1),
        outside_leap_second(t2),
        not_later(t1, t2),
    ensures
        millis_between_spec(t1, boot) <= millis_between_spec(t2, boot),
{
    lemma_nanos_between_linear(t1, boot);
    lemma_nanos_between_linear(t2, boot);
    lemma_position_ordered(t1, t2);
    lemma_div_toward_zero_monotonic(nanos_between(t1, boot), nanos_between(t2, boot), 1_000_000);
}

/// Law: when the boot reading is outside a leap second, time since boot is never
/// negative for a reading that is not earlier than the boot reading.
pub proof fn lemma_ticks_since_boot_nonnegative(boot: DateTime, t: DateTime)
    requires
        boot.wf(),
        t.wf(),
        outside_leap_second(boot),
        not_later(boot, t),
    ensures
        millis_between_spec(t, boot) >= 0,
{
    let n = nanos_between(t, boot);
    if t.days_from_ce > boot.days_from_ce {
        let dd = t.days_from_ce - boot.days_from_ce;
        assert(dd * 86_400_000_000_000int >= 86_400_000_000_000int) by (nonlinear_arith)
            requires
                dd >= 1,
        ;
    }
    assert(n >= 0);
    lemma_div_toward_zero_monotonic(0, n, 1_000_000);
}

/// Law: outside leap seconds, and for readings of whole-millisecond precision, the
/// difference of two times since boot is the time between the two readings.
pub proof fn lemma_ticks_since_boot_additive(boot: DateTime, t1: DateTime, t2: DateTime)
    requires
        boot.wf(),
        t1.wf(),
        t2.wf(),
        outside_leap_second(boot),
        outside_leap_second(t1),
        outside_leap_second(t2),
        boot.nanos % 1_000_000 == 0,
        t1.nanos % 1_000_000 == 0,
        t2.nanos % 1_000_000 == 0,
    ensures
        millis_between_spec(t2, boot) - millis_between_spec(t1, boot) == millis_between_spec(
            t2,
            t1,
        ),
{
    lemma_nanos_between_linear(t1, boot);
    lemma_nanos_between_linear(t2, boot);
    lemma_nanos_between_linear(t2, t1);
    let ms = |d: DateTime|
        d.days_from_ce * 86_400_000int + d.secs_from_midnight * 1_000int + d.nanos / 1_000_000;
    assert forall|d: DateTime| d.nanos % 1_000_000 == 0 implies nanos_position(d) == ms(d)
        * 1_000_000 by {
        assert(d.nanos == (d.nanos / 1_000_000) * 1_000_000);
    }
    let (mb, m1, m2) = (ms(boot), ms(t1), ms(t2));
    assert(nanos_between(t1, boot) == (m1 - mb) * 1_000_000);
    assert(nanos_between(t2, boot) == (m2 - mb) * 1_000_000);
    assert(nanos_between(t2, t1) == (m2 - m1) * 1_000_000);
    lemma_div_toward_zero_exact(m1 - mb, 1_000_000);
    lemma_div_toward_zero_exact(m2 - mb, 1_000_000);
    lemma_div_toward_zero_exact(m2 - m1, 1_000_000);
}

} // verus!
