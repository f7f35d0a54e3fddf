//! The random source and small scalar helpers.
//!
//! Uniform samples come from rand's standard generator through trusted
//! wrappers; everything derived from a sample is verified against the
//! wrapper's range guarantee alone.

use vstd::prelude::*;
use crate::fixed::{SCALE, fmul, fx_mul};
use vstd::arithmetic::div_mod::lemma_div_pos_is_pos;
use vstd::arithmetic::div_mod::lemma_multiply_divide_lt;
use vstd::arithmetic::mul::lemma_mul_strict_inequality;
use vstd::arithmetic::mul::lemma_mul_nonnegative;
use vstd::arithmetic::mul::lemma_mul_is_commutative;

verus! {

#[verifier::external_type_specification]
#[verifier::external_body]
pub struct ExStdRng(rand::rngs::StdRng);

/// A stream of uniform fixed-point samples drawn from rand's standard
/// generator.
pub struct RandomSource {
    rng: rand::rngs::StdRng,
}

impl RandomSource {
    /// A generator seeded with `seed`; equal seeds give equal streams.
    /// Relies on rand's `SeedableRng::seed_from_u64`.
    #[verifier::external_body]
    pub fn from_seed(seed: u64) -> RandomSource {
        RandomSource { rng: <rand::rngs::StdRng as rand::SeedableRng>::seed_from_u64(seed) }
    }

    /// A generator seeded from the operating system.
    /// Relies on rand's `SeedableRng::from_entropy`.
    #[verifier::external_body]
    pub fn from_entropy() -> RandomSource {
        RandomSource { rng: <rand::rngs::StdRng as rand::SeedableRng>::from_entropy() }
    }
}

/// One uniform fixed-point sample in `[0, 1)`.
/// Relies on rand's `Rng::gen_range` over the half-open range `0..SCALE`.
#[verifier::external_body]
pub fn random_double(rng: &mut RandomSource) -> (r: i64)
    ensures
        0 <= r < SCALE,
{
    rand::Rng::gen_range(&mut rng.rng, 0..SCALE)
}

/// One uniform fixed-point sample in `[min, max)`: `min` plus the span
/// scaled by a `[0, 1)` sample.
pub fn random_double_between(min: i64, max: i64, rng: &mut RandomSource) -> (r: i64)
    requires
        min < max,
        max - min <= i64::MAX,
    ensures
        min <= r < max,
{
    let xi = random_double(rng);
    let d = max - min;
    proof {
        lemma_mul_nonnegative(d as int, xi as int);
        lemma_mul_strict_inequality(xi as int, SCALE as int, d as int);
        lemma_mul_is_commutative(d as int, xi as int);
        lemma_mul_is_commutative(d as int, SCALE as int);
        lemma_multiply_divide_lt(d * xi, SCALE as int, d as int);
        lemma_div_pos_is_pos(d * xi, SCALE as int);
    }
    let off = fx_mul(d, xi);
    min + off
}

/// Clamp `x` to the interval `[min, max]`.
pub fn clamp(x: i64, min: i64, max: i64) -> (r: i64)
    ensures
        x < min ==> r == min,
        x > max && x >= min ==> r == max,
        min <= x <= max ==> r == x,
{
    if x < min {
        min
    } else if x > max {
        max
    } else {
        x
    }
}

} // verus!
