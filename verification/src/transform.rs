//! Per-channel pixel transforms for exposure and contrast.
//!
//! All color transforms work at 16-bit channel depth so that successive
//! edits do not band.  Caller-facing fractional parameters (an exposure
//! multiplier or a contrast level in `[-1, 1]`) are carried as integer
//! thousandths, so a parameter of `250` stands for `0.250`.

use vstd::prelude::*;

verus! {

/// Largest representable channel value at the 16-bit working depth.
pub const CHANNEL_MAX_16BIT: u16 = 65535;

/// Mid-gray at the 16-bit working depth; contrast pivots around this value.
pub const CHANNEL_MEAN_16BIT: u16 = 32767;

/// One whole unit of a fractional parameter, carried in thousandths.
pub const PARAM_UNIT: i32 = 1000;

/// Half of [`PARAM_UNIT`], the offset that rounds a division to nearest.
pub const HALF_UNIT: i32 = 500;

/// Clamps a mathematical channel value into the representable 16-bit range.
pub open spec fn clamp_channel(x: int) -> int {
    if x < 0 {
        0
    } else if x > CHANNEL_MAX_16BIT {
        CHANNEL_MAX_16BIT as int
    } else {
        x
    }
}

/// Rounds `n` thousandths to the nearest whole value, halves upward.
pub open spec fn round_div_unit(n: int) -> int {
    (n + HALF_UNIT) / (PARAM_UNIT as int)
}

/// The exposure transform on one channel value: `clamp(v * (1 + 2m))`,
/// rounded, where the multiplier `m` is given in thousandths.  The doubling
/// maps the caller-facing range `[-1, 1]` to an effective factor range of
/// `[-1, 3]`.
pub open spec fn exposed(v: u16, m: i32) -> int {
    clamp_channel(round_div_unit(v * (PARAM_UNIT + 2 * m)))
}

/// The contrast transform on one channel value:
/// `clamp((v - mean) * (1 + c) + mean)`, rounded, where the level `c` is
/// given in thousandths and `mean` is mid-gray at 16-bit depth.
pub open spec fn contrasted(v: u16, c: i32) -> int {
    clamp_channel(round_div_unit(
        (v - CHANNEL_MEAN_16BIT) * (PARAM_UNIT + c) + CHANNEL_MEAN_16BIT * PARAM_UNIT,
    ))
}

/// Clamps a signed numerator of thousandths, already offset by half a unit
/// for rounding, into the 16-bit channel range.
fn clamp_rounded(num: i64) -> (r: u16)
    ensures
        r == clamp_channel((num as int) / (PARAM_UNIT as int)),
{
    if num < 0 {
        proof {
            vstd::arithmetic::div_mod::lemma_div_is_ordered(num as int, -1, PARAM_UNIT as int);
        }
        0
    } else {
        let q: u64 = (num as u64) / (PARAM_UNIT as u64);
        if q > CHANNEL_MAX_16BIT as u64 {
            CHANNEL_MAX_16BIT
        } else {
            q as u16
        }
    }
}

/// Applies the exposure multiplier, in thousandths, to one channel value.
pub fn exposure_channel(v: u16, m: i32) -> (r: u16)
    ensures
        r == exposed(v, m),
{
    let factor: i64 = PARAM_UNIT as i64 + 2 * (m as i64);
    proof {
        assert(-400000000000000 <= (v as int) * (factor as int) <= 400000000000000)
            by (nonlinear_arith)
            requires
                0 <= v as int <= 65535,
                -5000000000 <= factor as int <= 5000000000,
        ;
    }
    let num: i64 = (v as i64) * factor + HALF_UNIT as i64;
    clamp_rounded(num)
}

/// Applies the contrast level, in thousandths, to one channel value.
pub fn contrast_channel(v: u16, c: i32) -> (r: u16)
    ensures
        r == contrasted(v, c),
{
    let deviation: i64 = v as i64 - CHANNEL_MEAN_16BIT as i64;
    let factor: i64 = PARAM_UNIT as i64 + c as i64;
    proof {
        assert(-400000000000000 <= (deviation as int) * (factor as int) <= 400000000000000)
            by (nonlinear_arith)
            requires
                -32767 <= deviation as int <= 32768,
                -5000000000 <= factor as int <= 5000000000,
        ;
    }
    let num: i64 = deviation * factor + (CHANNEL_MEAN_16BIT as i64) * (PARAM_UNIT as i64)
        + HALF_UNIT as i64;
    clamp_rounded(num)
}

/// The exposure transform mapped over a whole sample buffer.
pub open spec fn exposed_seq(s: Seq<u16>, m: i32) -> Seq<u16> {
    Seq::new(s.len(), |i: int| exposed(s[i], m) as u16)
}

/// The contrast transform mapped over a whole sample buffer.
pub open spec fn contrasted_seq(s: Seq<u16>, c: i32) -> Seq<u16> {
    Seq::new(s.len(), |i: int| contrasted(s[i], c) as u16)
}

/// Rewrites every sample of a working buffer with the exposure transform.
pub fn exposure_buffer(data: &mut Vec<u16>, m: i32)
    ensures
        final(data)@ == exposed_seq(old(data)@, m),
{
    let n: usize = data.len();
    let mut i: usize = 0;
    while i < n
        invariant
            n == data@.len(),
            n == old(data)@.len(),
            i <= n,
            forall|j: int| 0 <= j < i ==> data@[j] == exposed(old(data)@[j], m) as u16,
            forall|j: int| i <= j < n ==> data@[j] == old(data)@[j],
        decreases n - i,
    {
        let v = data[i];
        data.set(i, exposure_channel(v, m));
        i = i + 1;
    }
    assert(data@ =~= exposed_seq(old(data)@, m));
}

/// Rewrites every sample of a working buffer with the contrast transform.
pub fn contrast_buffer(data: &mut Vec<u16>, c: i32)
    ensures
        final(data)@ == contrasted_seq(old(data)@, c),
{
    let n: usize = data.len();
    let mut i: usize = 0;
    while i < n
        invariant
            n == data@.len(),
            n == old(data)@.len(),
            i <= n,
            forall|j: int| 0 <= j < i ==> data@[j] == contrasted(old(data)@[j], c) as u16,
            forall|j: int| i <= j < n ==> data@[j] == old(data)@[j],
        decreases n - i,
    {
        let v = data[i];
        data.set(i, contrast_channel(v, c));
        i = i + 1;
    }
    assert(data@ =~= contrasted_seq(old(data)@, c));
}

} // verus!
