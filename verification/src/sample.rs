//! Fixed-point audio samples and the two arithmetic operations the pipeline
//! performs on them: averaging a stereo pair down to one channel, and scaling
//! by the playback volume.
//!
//! A sample is an `i32`; the unverified shell maps the device's unit-range
//! float samples onto this range and back. Volume is an integer number of
//! tenths of a unit, from `0` (silence) to [`VOLUME_MAX_TENTHS`] (double).

use vstd::prelude::*;

verus! {

/// Volume of 1.0 (unchanged loudness), in tenths.
pub const VOLUME_UNIT_TENTHS: u8 = 10;

/// Largest admissible volume, 2.0, in tenths.
pub const VOLUME_MAX_TENTHS: u8 = 20;

/// Quotient of `n / d` rounded towards zero, the rounding that the sample
/// arithmetic below uses.
pub open spec fn div_to_zero(n: int, d: int) -> int
    recommends
        d >= 1,
{
    if n >= 0 {
        n / d
    } else {
        -((-n) / d)
    }
}

/// `x` forced into the representable `i32` range.
pub open spec fn clip_to_i32(x: int) -> int {
    if x < i32::MIN {
        i32::MIN as int
    } else if x > i32::MAX {
        i32::MAX as int
    } else {
        x
    }
}

/// Mean of two samples, rounded towards zero: the value of a stereo pair
/// mixed down to a single channel.
pub open spec fn mixed_pair(a: int, b: int) -> int {
    div_to_zero(a + b, 2)
}

/// `sample` scaled by `vol` tenths of a unit, rounded towards zero and
/// clipped into the sample range.
pub open spec fn scaled_sample(sample: int, vol: int) -> int {
    clip_to_i32(div_to_zero(sample * vol, 10))
}

/// Division rounded towards zero, computed on magnitudes so that only
/// unsigned machine division is needed.
fn div_to_zero_i64(n: i64, d: u64) -> (q: i64)
    requires
        d >= 1,
        -i64::MAX <= n,
    ensures
        q == div_to_zero(n as int, d as int),
        n >= 0 ==> 0 <= q <= n,
        n < 0 ==> n <= q <= 0,
{
    if n >= 0 {
        let m: u64 = n as u64;
        (m / d) as i64
    } else {
        let m: u64 = (-n) as u64;
        -((m / d) as i64)
    }
}

/// Mean of the two samples of one frame, rounded towards zero.
pub fn mix_pair(a: i32, b: i32) -> (m: i32)
    ensures
        m == mixed_pair(a as int, b as int),
{
    let sum: i64 = (a as i64) + (b as i64);
    let q: i64 = div_to_zero_i64(sum, 2);
    q as i32
}

/// Applies a volume of `vol` tenths of a unit to one sample.
pub fn scale_sample(sample: i32, vol: u8) -> (s: i32)
    requires
        vol <= VOLUME_MAX_TENTHS,
    ensures
        s == scaled_sample(sample as int, vol as int),
{
    proof {
        assert(-0x8000_0000 * 20 <= (sample as int) * (vol as int) <= 0x7fff_ffff * 20)
            by (nonlinear_arith)
            requires
                -0x8000_0000 <= sample as int <= 0x7fff_ffff,
                0 <= vol as int <= 20,
        {}
    }
    let product: i64 = (sample as i64) * (vol as i64);
    let q: i64 = div_to_zero_i64(product, 10);
    if q > i32::MAX as i64 {
        i32::MAX
    } else if q < i32::MIN as i64 {
        i32::MIN
    } else {
        q as i32
    }
}

} // verus!
