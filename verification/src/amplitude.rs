//! Fixed-point amplitudes and the linear ramp between two of them.

use vstd::prelude::*;

verus! {

/// A signed fixed-point amplitude. `UNITY` is full scale.
pub type Amplitude = i32;

/// The amplitude that stands for 1.0.
pub const UNITY: Amplitude = 65536;

/// The amplitude of a ramp of `frames` frames from `origin` to `target`, `elapsed` frames
/// after its first one. The first frame sits on `origin` and the last one on `target`;
/// values in between are rounded towards `origin`. A ramp of a single frame stays on `origin`.
pub open spec fn ramp_value(origin: int, target: int, elapsed: int, frames: int) -> int {
    if frames <= 1 {
        origin
    } else if target >= origin {
        origin + ((target - origin) * elapsed) / (frames - 1)
    } else {
        origin - ((origin - target) * elapsed) / (frames - 1)
    }
}

/// A ramp starts on its origin, ends on its target and never leaves the range between them.
pub proof fn lemma_ramp_value_bounds(origin: int, target: int, elapsed: int, frames: int)
    requires
        0 <= elapsed < frames,
    ensures
        ramp_value(origin, target, 0, frames) == origin,
        frames >= 2 ==> ramp_value(origin, target, frames - 1, frames) == target,
        target >= origin ==> origin <= ramp_value(origin, target, elapsed, frames) <= target,
        target <= origin ==> target <= ramp_value(origin, target, elapsed, frames) <= origin,
{
    if frames >= 2 {
        let span = frames - 1;
        let diff = if target >= origin { target - origin } else { origin - target };
        lemma_scaled_quotient(diff, elapsed, span);
        lemma_scaled_quotient(diff, span, span);
        lemma_scaled_quotient(diff, 0, span);
    }
}

/// A ramp moves towards its target: a later frame is never closer to the origin.
pub proof fn lemma_ramp_value_monotonic(origin: int, target: int, earlier: int, later: int, frames: int)
    requires
        0 <= earlier <= later < frames,
    ensures
        target >= origin ==> ramp_value(origin, target, earlier, frames) <= ramp_value(
            origin,
            target,
            later,
            frames,
        ),
        target <= origin ==> ramp_value(origin, target, earlier, frames) >= ramp_value(
            origin,
            target,
            later,
            frames,
        ),
{
    if frames >= 2 {
        let span = frames - 1;
        let diff = if target >= origin { target - origin } else { origin - target };
        assert(0 <= diff * earlier <= diff * later) by (nonlinear_arith)
            requires
                0 <= diff,
                0 <= earlier <= later,
        ;
        lemma_quotient_monotonic(diff * earlier, diff * later, span);
        if target == origin {
            assert(diff * earlier == 0 && diff * later == 0) by (nonlinear_arith)
                requires
                    diff == 0,
            ;
        }
    }
}

proof fn lemma_quotient_monotonic(low: int, high: int, divisor: int)
    requires
        0 <= low <= high,
        0 < divisor,
    ensures
        low / divisor <= high / divisor,
{
    vstd::arithmetic::div_mod::lemma_div_is_ordered(low, high, divisor);
}

proof fn lemma_scaled_quotient(diff: int, part: int, whole: int)
    requires
        0 <= diff,
        0 <= part <= whole,
        0 < whole,
    ensures
        0 <= (diff * part) / whole <= diff,
        part == 0 ==> (diff * part) / whole == 0,
        part == whole ==> (diff * part) / whole == diff,
{
    assert(0 <= diff * part <= diff * whole) by (nonlinear_arith)
        requires
            0 <= diff,
            0 <= part <= whole,
    ;
    lemma_quotient_monotonic(0, diff * part, whole);
    lemma_quotient_monotonic(diff * part, diff * whole, whole);
    vstd::arithmetic::div_mod::lemma_div_multiples_vanish(diff, whole);
    assert(diff * whole == whole * diff) by (nonlinear_arith);
    assert(0int / whole == 0) by (nonlinear_arith)
        requires
            0 < whole,
    ;
    if part == 0 {
        assert(diff * part == 0) by (nonlinear_arith)
            requires
                part == 0,
        ;
    }
}

/// Computes `ramp_value` for a frame inside the ramp.
pub fn ramp(origin: Amplitude, target: Amplitude, elapsed: u32, frames: u32) -> (value: Amplitude)
    requires
        elapsed < frames,
    ensures
        value == ramp_value(origin as int, target as int, elapsed as int, frames as int),
{
    if frames <= 1 {
        return origin;
    }
    let span: u64 = (frames - 1) as u64;
    let rising: bool = target >= origin;
    let diff: u64 = if rising {
        (target as i64 - origin as i64) as u64
    } else {
        (origin as i64 - target as i64) as u64
    };
    proof {
        lemma_scaled_quotient(diff as int, elapsed as int, span as int);
        assert(diff * elapsed <= 0xffff_ffff * 0xffff_ffff) by (nonlinear_arith)
            requires
                0 <= diff <= 0xffff_ffff,
                0 <= elapsed <= 0xffff_ffff,
        ;
    }
    let step: u64 = (diff * (elapsed as u64)) / span;
    if rising {
        (origin as i64 + step as i64) as Amplitude
    } else {
        (origin as i64 - step as i64) as Amplitude
    }
}

} // verus!
