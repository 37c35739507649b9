use vstd::prelude::*;
use crate::scalar::{exceeds, Real32};

verus! {

/// Encoding of 1.0, the upper bound of a strength.
pub const ONE_BITS: u32 = 0x3F80_0000;

/// Encoding of 100.0, the upper bound of the style ratio.
pub const HUNDRED_BITS: u32 = 0x42C8_0000;

/// Bound of a seed: a seed lies in `0..=SEED_MAX` once normalized.
pub const SEED_MAX: u32 = 0x7FFF_FFFF;

/// A request parameter outside the range the backend works with.
#[derive(Debug, Clone, Copy, PartialEq, Eq, Structural)]
pub enum RangeError {
    /// The denoising strength is above 1.0.
    Strength,
    /// The style ratio is above 100.0.
    StyleRatio,
    /// The control strength is above 1.0.
    ControlStrength,
    /// The number of sample steps is negative.
    SampleSteps,
}

/// The first range violation among the request's parameters, checked in the
/// order strength, style ratio, control strength, sample steps.
pub open spec fn range_outcome(
    strength: Real32,
    style_ratio: Real32,
    control_strength: Real32,
    sample_steps: i32,
) -> Result<(), RangeError> {
    if exceeds(strength, Real32 { bits: ONE_BITS }) {
        Err(RangeError::Strength)
    } else if exceeds(style_ratio, Real32 { bits: HUNDRED_BITS }) {
        Err(RangeError::StyleRatio)
    } else if exceeds(control_strength, Real32 { bits: ONE_BITS }) {
        Err(RangeError::ControlStrength)
    } else if sample_steps < 0 {
        Err(RangeError::SampleSteps)
    } else {
        Ok(())
    }
}

/// Checks the caller-supplied numeric parameters before any context is
/// touched: strength and control strength at most 1.0, style ratio at most
/// 100.0, sample steps not negative.
pub fn check_ranges(
    strength: Real32,
    style_ratio: Real32,
    control_strength: Real32,
    sample_steps: i32,
) -> (r: Result<(), RangeError>)
    ensures
        r == range_outcome(strength, style_ratio, control_strength, sample_steps),
{
    let one = Real32::from_bits(ONE_BITS);
    let hundred = Real32::from_bits(HUNDRED_BITS);
    if strength.exceeds(one) {
        Err(RangeError::Strength)
    } else if style_ratio.exceeds(hundred) {
        Err(RangeError::StyleRatio)
    } else if control_strength.exceeds(one) {
        Err(RangeError::ControlStrength)
    } else if sample_steps < 0 {
        Err(RangeError::SampleSteps)
    } else {
        Ok(())
    }
}

/// The seed drawn for a negative request: a random 32-bit value mixed with
/// the low 32 bits of the clock's seconds, cut to 31 bits.
pub open spec fn mixed_seed(random: u32, now_secs: u64) -> i32 {
    ((random ^ (now_secs as u32)) & SEED_MAX) as i32
}

/// Normalizes a requested seed: a non-negative seed is kept, a negative one
/// is replaced by the mix of `random` and `now_secs`.
pub fn normalize_seed(seed: i32, random: u32, now_secs: u64) -> (r: i32)
    ensures
        seed >= 0 ==> r == seed,
        seed < 0 ==> r == mixed_seed(random, now_secs),
        0 <= r <= SEED_MAX,
{
    if seed >= 0 {
        seed
    } else {
        let low: u32 = now_secs as u32;
        let m: u32 = (random ^ low) & SEED_MAX;
        assert(m <= SEED_MAX) by (bit_vector)
            requires
                m == (random ^ low) & 0x7FFF_FFFFu32,
        ;
        m as i32
    }
}

/// Relies on rand::random, which draws from the thread-local generator
/// (`thread_rng().gen()`); nothing is promised of the value.
pub assume_specification<T>[ rand::random::<T> ]() -> (r: T)
    where
        rand::distributions::Standard: rand::distributions::Distribution<T>,
;

/// The seed to use for a request: a non-negative seed is kept; a negative one
/// is replaced by a fresh random value in `0..=SEED_MAX`, so two calls with
/// the same negative seed need not agree.
pub fn pick_seed(seed: i32, now_secs: u64) -> (r: i32)
    ensures
        seed >= 0 ==> r == seed,
        seed < 0 ==> exists|random: u32| r == mixed_seed(random, now_secs),
        0 <= r <= SEED_MAX,
{
    if seed >= 0 {
        seed
    } else {
        let random: u32 = rand::random::<u32>();
        normalize_seed(seed, random, now_secs)
    }
}

} // verus!
