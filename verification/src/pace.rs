//! Average pace per split.
//!
//! The pace over a split of `size` meters, for `dist` meters rowed in `secs`
//! seconds, is the exact rational `secs * size / dist` seconds. It is
//! presented as whole minutes plus a seconds figure rounded to the nearest
//! tenth of a second, half away from zero. To stay within integers the
//! seconds figure is carried in tenths: `seconds_tenths == 123` stands for
//! `12.3` seconds.

use vstd::prelude::*;

use crate::PaceError;

verus! {

/// Average pace over one split: whole minutes, and tenths of a second past
/// those minutes (`seconds_tenths` is ten times the seconds figure).
#[derive(Clone, Copy, Debug, PartialEq, Eq, Structural)]
pub struct PaceResult {
    pub minutes: u64,
    pub seconds_tenths: u64,
}

/// Whole minutes of the exact pace `secs * size / dist` seconds per split.
pub open spec fn pace_minutes(dist: int, secs: int, size: int) -> int {
    (secs * size) / (60 * dist)
}

/// Seconds of the exact pace past its whole minutes, scaled by the
/// denominator: the exact pace is `pace_minutes` minutes plus
/// `pace_rem / dist` seconds.
pub open spec fn pace_rem(dist: int, secs: int, size: int) -> int {
    (secs * size) % (60 * dist)
}

/// The seconds figure in tenths, rounded to the nearest tenth half away from
/// zero: `round(10 * pace_rem / dist)` for a nonnegative remainder.
pub open spec fn pace_seconds_tenths(dist: int, secs: int, size: int) -> int {
    (20 * pace_rem(dist, secs, size) + dist) / (2 * dist)
}

/// What `compute_pace` returns: on positive inputs the exact minute/tenths
/// decomposition of the pace; `DivisionByZero` when the distance or split
/// size is zero; `InvalidInput` when only the time is zero.
pub open spec fn pace_post(
    distance: u32,
    total_time_seconds: u32,
    split_size: u32,
    r: Result<PaceResult, PaceError>,
) -> bool {
    match r {
        Ok(p) => {
            &&& distance > 0 && split_size > 0 && total_time_seconds > 0
            &&& p.minutes == pace_minutes(distance as int, total_time_seconds as int, split_size as int)
            &&& p.seconds_tenths == pace_seconds_tenths(
                distance as int,
                total_time_seconds as int,
                split_size as int,
            )
        },
        Err(e) => {
            if distance == 0 || split_size == 0 {
                e == PaceError::DivisionByZero
            } else {
                total_time_seconds == 0 && e == PaceError::InvalidInput
            }
        },
    }
}

/// The average pace per split of `split_size` meters, for `distance` meters
/// rowed in `total_time_seconds` seconds. `split_size` is 500 under the
/// rowing convention, but any positive split works.
pub fn compute_pace(distance: u32, total_time_seconds: u32, split_size: u32) -> (r: Result<
    PaceResult,
    PaceError,
>)
    ensures
        pace_post(distance, total_time_seconds, split_size, r),
{
    if distance == 0 || split_size == 0 {
        return Err(PaceError::DivisionByZero);
    }
    if total_time_seconds == 0 {
        return Err(PaceError::InvalidInput);
    }
    assert((total_time_seconds as u64) * (split_size as u64) <= u64::MAX) by (nonlinear_arith)
        requires
            total_time_seconds <= u32::MAX,
            split_size <= u32::MAX,
    ;
    let num: u64 = (total_time_seconds as u64) * (split_size as u64);
    let den: u64 = 60 * (distance as u64);
    let minutes: u64 = num / den;
    let rem: u64 = num % den;
    let tenths: u64 = (20 * rem + distance as u64) / (2 * (distance as u64));
    Ok(PaceResult { minutes, seconds_tenths: tenths })
}

/// On a positive distance, time and split size, the pace decomposes into a
/// nonnegative number of whole minutes and a rounded seconds figure below one
/// minute. The seconds figure is rounded to the nearest tenth, so inputs
/// whose exact seconds lie within half a tenth of a full minute (those with
/// `20 * pace_rem >= 1199 * dist`) are left out: there the rounded figure
/// reaches `60.0` exactly.
pub proof fn lemma_pace_seconds_in_range(dist: int, secs: int, size: int)
    requires
        dist > 0,
        secs > 0,
        size > 0,
        20 * pace_rem(dist, secs, size) < 1199 * dist,
    ensures
        pace_minutes(dist, secs, size) >= 0,
        0 <= pace_seconds_tenths(dist, secs, size) < 600,
{
    let num = secs * size;
    assert(num > 0) by (nonlinear_arith)
        requires
            num == secs * size,
            secs > 0,
            size > 0,
    ;
    vstd::arithmetic::div_mod::lemma_div_pos_is_pos(num, 60 * dist);
    let r = pace_rem(dist, secs, size);
    vstd::arithmetic::div_mod::lemma_mod_bound(num, 60 * dist);
    vstd::arithmetic::div_mod::lemma_div_pos_is_pos(20 * r + dist, 2 * dist);
    assert(20 * r + dist < (2 * dist) * 600);
    vstd::arithmetic::div_mod::lemma_multiply_divide_lt(20 * r + dist, 2 * dist, 600);
}

/// Round trip: the pace reported as whole minutes plus a rounded tenths
/// figure differs from the exact pace `secs * size / dist` seconds by at most
/// one tenth of a second. Scaled by `10 * dist` to stay within integers: the
/// reported pace in tenths is `600 * pace_minutes + pace_seconds_tenths`, the
/// exact pace in tenths is `10 * secs * size / dist`, and their difference
/// times `dist` stays within `dist` (rounding in fact stays within half a
/// tenth: the doubled difference lies in `(-dist, dist]`).
pub proof fn lemma_pace_round_trip(dist: int, secs: int, size: int)
    requires
        dist > 0,
        secs > 0,
        size > 0,
    ensures
        60 * dist * pace_minutes(dist, secs, size) + pace_rem(dist, secs, size) == secs * size,
        0 <= pace_rem(dist, secs, size) < 60 * dist,
        -dist < 2 * (pace_seconds_tenths(dist, secs, size) * dist - 10 * pace_rem(
            dist,
            secs,
            size,
        )) <= dist,
        -dist <= (600 * pace_minutes(dist, secs, size) + pace_seconds_tenths(dist, secs, size))
            * dist - 10 * (secs * size) <= dist,
{
    let num = secs * size;
    let den = 60 * dist;
    let m = pace_minutes(dist, secs, size);
    let r = pace_rem(dist, secs, size);
    let q = pace_seconds_tenths(dist, secs, size);
    vstd::arithmetic::div_mod::lemma_fundamental_div_mod(num, den);
    vstd::arithmetic::div_mod::lemma_mod_bound(num, den);
    assert(den * m == 60 * dist * m) by (nonlinear_arith)
        requires
            den == 60 * dist,
            m == num / den,
    ;
    let rr = (20 * r + dist) % (2 * dist);
    vstd::arithmetic::div_mod::lemma_fundamental_div_mod(20 * r + dist, 2 * dist);
    vstd::arithmetic::div_mod::lemma_mod_bound(20 * r + dist, 2 * dist);
    assert(2 * (q * dist - 10 * r) == dist - rr) by (nonlinear_arith)
        requires
            20 * r + dist == 2 * dist * q + rr,
    ;
    assert((600 * m + q) * dist - 10 * num == q * dist - 10 * r) by (nonlinear_arith)
        requires
            num == 60 * dist * m + r,
    ;
}

/// The engine is pure: two pace results for the same inputs that both meet
/// `compute_pace`'s contract are the same value, so calling the function
/// twice with identical inputs yields identical outputs.
pub proof fn lemma_compute_pace_deterministic(
    distance: u32,
    total_time_seconds: u32,
    split_size: u32,
    r1: Result<PaceResult, PaceError>,
    r2: Result<PaceResult, PaceError>,
)
    requires
        pace_post(distance, total_time_seconds, split_size, r1),
        pace_post(distance, total_time_seconds, split_size, r2),
    ensures
        r1 == r2,
{
}

} // verus!
