//! The simulation clock: the Julian date of a frame, from the wall time that
//! has elapsed since startup.

use crate::fixed::{lemma_scaled_unit, lemma_trunc_div_bounds, lemma_trunc_div_monotonic, scaled, ONE};
use vstd::prelude::*;

verus! {

/// Nanoseconds in one day.
pub const NANOS_PER_DAY: u64 = 86_400_000_000_000;

/// The simulated date at startup, and how fast simulated time runs.
#[derive(Clone, Copy, Debug, PartialEq, Eq, Structural)]
pub struct SimulationTime {
    /// Whole days of the Julian date at startup.
    pub base_jd: i32,
    /// Rest of the Julian date at startup, in nanoseconds of the day.
    pub base_fr: u64,
    /// Simulated time per wall time, as a fixed-point number: 1 is real
    /// time, 0 freezes the date, a negative scale runs it backwards.
    pub time_scale: i64,
}

/// Whether the Julian date `a` is not later than `b`. A date is a pair of
/// whole days and nanoseconds of the day.
pub open spec fn julian_le(a: (int, int), b: (int, int)) -> bool {
    a.0 < b.0 || (a.0 == b.0 && a.1 <= b.1)
}

impl SimulationTime {
    /// The base date's rest is less than one day.
    pub open spec fn wf(&self) -> bool {
        self.base_fr < NANOS_PER_DAY
    }

    /// The simulated date after `elapsed` nanoseconds of wall time, in
    /// nanoseconds since the start of Julian day 0: the base date plus the
    /// elapsed time multiplied by the time scale.
    pub open spec fn spec_julian_nanos(&self, elapsed: int) -> int {
        self.base_jd * NANOS_PER_DAY + self.base_fr + scaled(elapsed, self.time_scale as int)
    }

    /// The simulated date after `elapsed` nanoseconds of wall time: whole
    /// days, rounded down, and the nanoseconds that remain.
    pub open spec fn spec_julian_date(&self, elapsed: int) -> (int, int) {
        (
            self.spec_julian_nanos(elapsed) / (NANOS_PER_DAY as int),
            self.spec_julian_nanos(elapsed) % (NANOS_PER_DAY as int),
        )
    }

    /// Gives the Julian date after `elapsed_nanos` nanoseconds of wall time
    /// as whole days and nanoseconds of the day.
    pub fn current_julian_date(&self, elapsed_nanos: u64) -> (date: (i64, u64))
        ensures
            (date.0 as int, date.1 as int) == self.spec_julian_date(elapsed_nanos as int),
            date.1 < NANOS_PER_DAY,
    {
        let delta: i128 = scaled_elapsed(elapsed_nanos, self.time_scale);
        let base_days: i128 = self.base_jd as i128;
        let day: i128 = NANOS_PER_DAY as i128;
        assert(base_days * day == base_days * 86_400_000_000_000) by (nonlinear_arith)
            requires
                day == 86_400_000_000_000,
        ;
        let total: i128 = base_days * day + self.base_fr as i128 + delta;
        let (days, rest) = split_days(total);
        (days as i64, rest)
    }
}

/// Splits a count of nanoseconds into whole days, rounded down, and the
/// nanoseconds that remain.
fn split_days(total: i128) -> (r: (i128, u64))
    ensures
        r.0 == (total as int) / (NANOS_PER_DAY as int),
        r.1 == (total as int) % (NANOS_PER_DAY as int),
        r.1 < NANOS_PER_DAY,
{
    let day: i128 = NANOS_PER_DAY as i128;
    let quotient: i128 = total / day;
    let rest: i128 = total % day;
    if rest < 0 {
        proof {
            vstd::arithmetic::div_mod::lemma_fundamental_div_mod_converse(
                total as int,
                NANOS_PER_DAY as int,
                quotient - 1,
                rest + day,
            );
        }
        (quotient - 1, (rest + day) as u64)
    } else {
        proof {
            vstd::arithmetic::div_mod::lemma_fundamental_div_mod_converse(
                total as int,
                NANOS_PER_DAY as int,
                quotient as int,
                rest as int,
            );
        }
        (quotient, rest as u64)
    }
}

/// The elapsed wall time multiplied by the time scale.
fn scaled_elapsed(elapsed_nanos: u64, time_scale: i64) -> (delta: i128)
    ensures
        delta == scaled(elapsed_nanos as int, time_scale as int),
        -170_141_183_460_469_231_731_687_303_715_884 <= delta <= 170_141_183_460_469_231_731_687_303_715_884,
{
    let wide_elapsed: i128 = elapsed_nanos as i128;
    let wide_scale: i128 = time_scale as i128;
    assert(-0x7fff_ffff_ffff_ffff_ffff_ffff_ffff_ffff <= wide_elapsed * wide_scale
        <= 0x7fff_ffff_ffff_ffff_ffff_ffff_ffff_ffff) by (nonlinear_arith)
        requires
            0 <= wide_elapsed <= 0xffff_ffff_ffff_ffff,
            -0x8000_0000_0000_0000 <= wide_scale <= 0x7fff_ffff_ffff_ffff,
    ;
    let product: i128 = wide_elapsed * wide_scale;
    proof {
        lemma_trunc_div_bounds(product as int, ONE as int);
        let delta = scaled(elapsed_nanos as int, time_scale as int);
        assert(product >= 0 ==> delta * ONE <= product);
        assert(product <= 0 ==> product <= delta * ONE);
    }
    product / ONE as i128
}

/// Creates the clock at startup from the current Julian date, given as whole
/// days and nanoseconds of the day. Simulated time runs at real time.
pub fn setup_simulation_time(base_jd: i32, base_fr: u64) -> (clock: SimulationTime)
    requires
        base_fr < NANOS_PER_DAY,
    ensures
        clock.wf(),
        clock.base_jd == base_jd,
        clock.base_fr == base_fr,
        clock.time_scale == ONE,
{
    SimulationTime { base_jd, base_fr, time_scale: ONE }
}

/// The rest of a frame's date is always less than one day, whatever the
/// clock holds.
pub proof fn lemma_julian_fraction_in_day(clock: SimulationTime, elapsed: int)
    ensures
        0 <= clock.spec_julian_date(elapsed).1 < NANOS_PER_DAY,
        clock.spec_julian_date(elapsed).0 * NANOS_PER_DAY + clock.spec_julian_date(elapsed).1
            == clock.spec_julian_nanos(elapsed),
{
    let day = NANOS_PER_DAY as int;
    vstd::arithmetic::div_mod::lemma_fundamental_div_mod(clock.spec_julian_nanos(elapsed), day);
    vstd::arithmetic::div_mod::lemma_mod_bound(clock.spec_julian_nanos(elapsed), day);
}

/// With a time scale that is not negative, a later frame never has an
/// earlier date.
pub proof fn lemma_julian_date_monotonic(clock: SimulationTime, earlier: int, later: int)
    requires
        clock.time_scale >= 0,
        0 <= earlier <= later,
    ensures
        julian_le(clock.spec_julian_date(earlier), clock.spec_julian_date(later)),
{
    let scale = clock.time_scale as int;
    assert(earlier * scale <= later * scale) by (nonlinear_arith)
        requires
            earlier <= later,
            scale >= 0,
    ;
    lemma_trunc_div_monotonic(earlier * scale, later * scale, ONE as int);
    lemma_julian_le_of_nanos(clock.spec_julian_nanos(earlier), clock.spec_julian_nanos(later));
}

/// With a time scale that is not positive, a later frame never has a later
/// date: simulated time runs backwards or stands still.
pub proof fn lemma_julian_date_reverses(clock: SimulationTime, earlier: int, later: int)
    requires
        clock.time_scale <= 0,
        0 <= earlier <= later,
    ensures
        julian_le(clock.spec_julian_date(later), clock.spec_julian_date(earlier)),
{
    let scale = clock.time_scale as int;
    assert(later * scale <= earlier * scale) by (nonlinear_arith)
        requires
            earlier <= later,
            scale <= 0,
    ;
    lemma_trunc_div_monotonic(later * scale, earlier * scale, ONE as int);
    lemma_julian_le_of_nanos(clock.spec_julian_nanos(later), clock.spec_julian_nanos(earlier));
}

/// The date of a frame stays at the base date while the time scale is 0, and
/// is the base date at startup whatever the time scale. At a time scale of 1
/// the date advances by the wall time that has elapsed.
pub proof fn lemma_julian_date_anchors(clock: SimulationTime, elapsed: int)
    requires
        clock.wf(),
    ensures
        clock.time_scale == 0 ==> clock.spec_julian_date(elapsed) == (clock.base_jd as int, clock.base_fr as int),
        clock.spec_julian_date(0) == (clock.base_jd as int, clock.base_fr as int),
        clock.time_scale == ONE ==> clock.spec_julian_nanos(elapsed) == clock.spec_julian_nanos(0) + elapsed,
{
    lemma_scaled_unit(elapsed);
    lemma_scaled_unit(clock.time_scale as int);
    let day = NANOS_PER_DAY as int;
    let base = clock.base_jd * day + clock.base_fr;
    vstd::arithmetic::div_mod::lemma_fundamental_div_mod_converse(base, day, clock.base_jd as int, clock.base_fr as int);
}

/// Rounding a count of nanoseconds down to whole days keeps the order.
proof fn lemma_julian_le_of_nanos(a: int, b: int)
    requires
        a <= b,
    ensures
        julian_le(
            (a / (NANOS_PER_DAY as int), a % (NANOS_PER_DAY as int)),
            (b / (NANOS_PER_DAY as int), b % (NANOS_PER_DAY as int)),
        ),
{
    let day = NANOS_PER_DAY as int;
    vstd::arithmetic::div_mod::lemma_div_is_ordered(a, b, day);
    vstd::arithmetic::div_mod::lemma_fundamental_div_mod(a, day);
    vstd::arithmetic::div_mod::lemma_fundamental_div_mod(b, day);
}

} // verus!
