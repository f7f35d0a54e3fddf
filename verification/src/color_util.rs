//! The pixel estimator's output stage: average the accumulated radiance over
//! the samples, apply square-root gamma, clamp, and quantize each channel to
//! one byte in scan order.

use vstd::prelude::*;
use crate::fixed::{
    SCALE, tdiv, fsqrt, is_isqrt, fx_sqrt, tdiv_i128, lemma_tdiv, lemma_tdiv_ordered,
};
use crate::vec::Color3;
use crate::math::clamp;
use vstd::arithmetic::div_mod::lemma_fundamental_div_mod_converse_div;

verus! {

/// The byte one linear channel becomes: average over `n` samples, square-root
/// gamma, clamp to `[0, 0.999]`, quantize by 256.  A negative average (the
/// fixed-point analogue of a propagated non-finite value) quantizes to zero.
pub open spec fn channel_byte(c: int, n: int) -> int {
    let avg = tdiv(c, n);
    if avg < 0 {
        0
    } else {
        let root = fsqrt(avg);
        let clamped = if root > 999_000_000 {
            999_000_000int
        } else {
            root
        };
        tdiv(256 * clamped, SCALE as int)
    }
}

/// Averaging, gamma, clamping and quantization always give one byte.
pub proof fn lemma_channel_byte_range(c: int, n: int)
    requires
        1 <= n,
    ensures
        0 <= channel_byte(c, n) <= 255,
{
    let avg = tdiv(c, n);
    if avg >= 0 {
        crate::fixed::lemma_isqrt(avg * (SCALE as int));
        let root = fsqrt(avg);
        let clamped = if root > 999_000_000 {
            999_000_000int
        } else {
            root
        };
        lemma_tdiv(256 * clamped, SCALE as int);
        lemma_tdiv_ordered(256 * clamped, 255_744_000_000int, SCALE as int);
        lemma_fundamental_div_mod_converse_div(
            255_744_000_000int,
            SCALE as int,
            255int,
            744_000_000int,
        );
    }
}

/// Quantize one channel.
fn quantize(c: i64, n: u32) -> (b: u8)
    requires
        n >= 1,
    ensures
        b as int == channel_byte(c as int, n as int),
{
    proof {
        lemma_tdiv(c as int, n as int);
    }
    let avg_i = tdiv_i128(c as i128, n as i128);
    if avg_i < 0 {
        return 0;
    }
    let avg = avg_i as i64;
    let root = fx_sqrt(avg);
    proof {
        assert(is_isqrt((avg as int) * (SCALE as int), root as int));
    }
    let clamped = clamp(root, 0, 999_000_000);
    let prod: i64 = 256 * clamped;
    proof {
        lemma_tdiv(prod as int, SCALE as int);
        lemma_tdiv_ordered(prod as int, 255_744_000_000int, SCALE as int);
        lemma_fundamental_div_mod_converse_div(
            255_744_000_000int,
            SCALE as int,
            255int,
            744_000_000int,
        );
    }
    let q = tdiv_i128(prod as i128, 1_000_000_000);
    q as u8
}

/// Append the three bytes of one pixel, in R, G, B order.
pub fn write_color(out: &mut Vec<u8>, pixel_color: &Color3, samples_per_pixel: u32)
    requires
        samples_per_pixel >= 1,
    ensures
        final(out)@ == old(out)@.push(
            channel_byte(pixel_color.x as int, samples_per_pixel as int) as u8,
        ).push(channel_byte(pixel_color.y as int, samples_per_pixel as int) as u8).push(
            channel_byte(pixel_color.z as int, samples_per_pixel as int) as u8,
        ),
        final(out)@.len() == old(out)@.len() + 3,
{
    proof {
        lemma_channel_byte_range(pixel_color.x as int, samples_per_pixel as int);
        lemma_channel_byte_range(pixel_color.y as int, samples_per_pixel as int);
        lemma_channel_byte_range(pixel_color.z as int, samples_per_pixel as int);
    }
    let r8 = quantize(pixel_color.x, samples_per_pixel);
    let g8 = quantize(pixel_color.y, samples_per_pixel);
    let b8 = quantize(pixel_color.z, samples_per_pixel);
    out.push(r8);
    out.push(g8);
    out.push(b8);
}

} // verus!
