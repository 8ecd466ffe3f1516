use vstd::prelude::*;

verus! {

/// One pass of the gain-and-quantize stage on a micro-unit sample.
///
/// A sample `m` stands for the amplitude `m / 1_000_000`. Attenuating that
/// amplitude by the fixed `0.8` gain and rounding the result to the nearest
/// one-millionth is, on the micro-unit integers, exactly "the nearest integer
/// to `4 * m / 5`, ties away from zero". Because `4 * m / 5` has a fractional
/// part that is always a multiple of one fifth, a tie can never occur.
pub open spec fn quantize_spec(m: int) -> int {
    if m >= 0 {
        (4 * m + 2) / 5
    } else {
        -((4 * (-m) + 2) / 5)
    }
}

/// Attenuate one micro-unit sample by the fixed gain and round it to the
/// nearest micro-unit.
pub fn quantize_sample(m: i64) -> (q: i64)
    ensures
        q == quantize_spec(m as int),
{
    let mag: u128 = if m >= 0 {
        m as u128
    } else {
        (-(m as i128)) as u128
    };
    let qm: u128 = (4 * mag + 2) / 5;
    proof {
        // `mag` is at most the magnitude of `i64::MIN`, so `qm` stays well
        // below `i64::MAX` and both casts back are lossless.
        vstd::arithmetic::div_mod::lemma_div_is_ordered(
            4 * (mag as int) + 2,
            4 * 0x8000_0000_0000_0000int + 2,
            5,
        );
    }
    if m >= 0 {
        qm as i64
    } else {
        -(qm as i64)
    }
}

/// The quantized sample is the nearest micro-unit to the attenuated
/// amplitude: scaled up by the gain's denominator, `5 * quantize_spec(m)`
/// never strays more than `2` from `4 * m`, so the rounding error is at most
/// two fifths of a micro-unit and a closer micro-unit does not exist.
pub proof fn lemma_quantize_nearest(m: int)
    ensures
        -2 <= 5 * quantize_spec(m) - 4 * m <= 2,
{
    if m >= 0 {
        vstd::arithmetic::div_mod::lemma_fundamental_div_mod(4 * m + 2, 5);
        vstd::arithmetic::div_mod::lemma_mod_bound(4 * m + 2, 5);
    } else {
        vstd::arithmetic::div_mod::lemma_fundamental_div_mod(4 * (-m) + 2, 5);
        vstd::arithmetic::div_mod::lemma_mod_bound(4 * (-m) + 2, 5);
    }
}

/// Only one micro-unit value sits within the quantization window of a given
/// attenuated amplitude: together with `lemma_quantize_nearest` this pins the
/// gain stage's result down to exactly one value, so equal inputs always
/// produce equal outputs.
pub proof fn lemma_quantize_value_unique(m: int, q1: int, q2: int)
    requires
        -2 <= 5 * q1 - 4 * m <= 2,
        -2 <= 5 * q2 - 4 * m <= 2,
    ensures
        q1 == q2,
{
}

/// The gain stage is an odd function of the sample: negating the input
/// negates the output.
pub proof fn lemma_quantize_negate(m: int)
    ensures
        quantize_spec(-m) == -quantize_spec(m),
{
}

/// A silent sample passes the gain stage unchanged: attenuating zero
/// amplitude yields zero.
pub proof fn lemma_quantize_zero()
    ensures
        quantize_spec(0) == 0,
{
}

/// Feeding the gain-and-quantize stage its own output does not reproduce
/// that output: the second pass re-applies the `0.8` gain, so any sample of
/// at least four micro-units in magnitude comes out strictly smaller in
/// magnitude. (Samples within three micro-units of zero are fixed points of
/// the stage, where the attenuation is swallowed by the rounding.)
pub proof fn lemma_requantize_changes(m: int)
    requires
        m >= 4 || m <= -4,
    ensures
        quantize_spec(quantize_spec(m)) != quantize_spec(m),
{
    let n = if m >= 4 { m } else { -m };
    let k = (4 * n + 2) / 5;
    vstd::arithmetic::div_mod::lemma_fundamental_div_mod_converse_div(18, 5, 3, 3);
    vstd::arithmetic::div_mod::lemma_div_is_ordered(18, 4 * n + 2, 5);
    vstd::arithmetic::div_mod::lemma_div_is_ordered(4 * k + 2, 5 * k - 1, 5);
    vstd::arithmetic::div_mod::lemma_fundamental_div_mod_converse_div(5 * k - 1, 5, k - 1, 4);
    if m <= -4 {
        lemma_quantize_negate(n);
        lemma_quantize_negate(k);
    }
}

} // verus!
