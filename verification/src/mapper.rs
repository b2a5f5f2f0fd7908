//! Angle-to-duty-cycle mapping.
//!
//! A hobby servo responds near-linearly to pulse width over its rated
//! travel, so the commanded angle is linearly interpolated into the PWM
//! timer's duty domain: `duty = position * resolution / 180 + offset`,
//! where `resolution` is the number of discrete duty steps the timer
//! supports and `offset` is the duty value of the 0-degree mechanical stop.
//! The result is clamped to `[0, resolution - 1]`: writing an out-of-range
//! duty to real PWM hardware produces undefined or damaging pulse widths,
//! so the clamp is a hard invariant, not an optional safety check.

use vstd::arithmetic::div_mod::{lemma_div_is_ordered, lemma_div_pos_is_pos};
use vstd::arithmetic::mul::{lemma_mul_inequality, lemma_mul_nonnegative};
use vstd::prelude::*;

verus! {

/// Degrees of rated servo travel; commanded angles live in `[0, FULL_TRAVEL_DEGREES]`.
pub const FULL_TRAVEL_DEGREES: u16 = 180;

/// The unclamped linear interpolation of `position` into the duty domain.
pub open spec fn raw_duty(position: int, resolution: int, offset: int) -> int {
    position * resolution / (FULL_TRAVEL_DEGREES as int) + offset
}

/// The duty value actually commanded: the interpolation clamped to the
/// timer's legal range `[0, resolution - 1]`.
pub open spec fn clamped_duty(position: int, resolution: int, offset: int) -> int {
    if raw_duty(position, resolution, offset) <= resolution - 1 {
        raw_duty(position, resolution, offset)
    } else {
        resolution - 1
    }
}

/// Convert a commanded angle into a duty value legal for a timer with
/// `resolution` duty steps, offsetting by `min_duty_offset` (the duty of the
/// 0-degree stop). Total over all `u16` positions: an out-of-range angle is
/// still clamped, never wrapped.
pub fn map_duty(position: u16, resolution: u32, min_duty_offset: u32) -> (duty: u32)
    requires
        resolution >= 1,
    ensures
        duty == clamped_duty(position as int, resolution as int, min_duty_offset as int),
        duty < resolution,
{
    proof {
        assert((position as int) * (resolution as int) <= 65535 * 0xffff_ffff)
            by (nonlinear_arith)
            requires
                position <= 65535,
                resolution <= 0xffff_ffffu32,
        ;
        lemma_mul_nonnegative(position as int, resolution as int);
        lemma_div_pos_is_pos((position as int) * (resolution as int), FULL_TRAVEL_DEGREES as int);
    }
    let scaled: u64 = (position as u64) * (resolution as u64) / (FULL_TRAVEL_DEGREES as u64);
    let raw: u64 = scaled + (min_duty_offset as u64);
    let cap: u64 = (resolution as u64) - 1;
    let duty: u64 = if raw <= cap {
        raw
    } else {
        cap
    };
    duty as u32
}

/// The mapping is non-decreasing: a larger angle never commands a smaller
/// duty value.
pub proof fn lemma_duty_monotonic(p1: int, p2: int, resolution: int, offset: int)
    requires
        0 <= p1 <= p2 <= FULL_TRAVEL_DEGREES as int,
        resolution >= 1,
    ensures
        clamped_duty(p1, resolution, offset) <= clamped_duty(p2, resolution, offset),
{
    lemma_mul_inequality(p1, p2, resolution);
    lemma_div_is_ordered(p1 * resolution, p2 * resolution, FULL_TRAVEL_DEGREES as int);
}

/// Every mapped duty value lies in the timer's legal range `[0, resolution - 1]`,
/// for any non-negative angle, in range or not.
pub proof fn lemma_duty_in_range(position: int, resolution: int, offset: int)
    requires
        0 <= position,
        resolution >= 1,
        0 <= offset,
    ensures
        0 <= clamped_duty(position, resolution, offset) < resolution,
{
    lemma_mul_nonnegative(position, resolution);
    lemma_div_pos_is_pos(position * resolution, FULL_TRAVEL_DEGREES as int);
}

/// Clamping is a no-op on an angle whose interpolated duty is already in
/// range: the commanded value is exactly the linear interpolation.
pub proof fn lemma_clamp_identity(position: int, resolution: int, offset: int)
    requires
        raw_duty(position, resolution, offset) <= resolution - 1,
    ensures
        clamped_duty(position, resolution, offset) == raw_duty(position, resolution, offset),
{
}

} // verus!
