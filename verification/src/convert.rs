//! The format converter: from a normalised 32-bit sample to a signed 16-bit
//! native sample.
//!
//! A sample travels through this module as the bit pattern of its IEEE 754
//! binary32 encoding. The value that a pattern stands for is modelled exactly,
//! as an integer multiple of 2^-149, so the conversion is stated and proved
//! over integers.

use vstd::arithmetic::div_mod::{
    lemma_basic_div, lemma_div_is_ordered, lemma_div_multiples_vanish,
    lemma_div_multiples_vanish_quotient, lemma_fundamental_div_mod_converse_div,
};
use vstd::arithmetic::power2::{
    lemma2_to64, lemma2_to64_rest, lemma_pow2_adds, lemma_pow2_pos,
    lemma_pow2_strictly_increases, pow2,
};
use vstd::bits::lemma_u64_shl_is_mul;
use vstd::prelude::*;

verus! {

/// The native sample that the sample `1.0` maps to.
pub const NATIVE_PEAK: i16 = 32767;

/// The biased exponent of a bit pattern.
pub open spec fn exponent_field(bits: u32) -> nat {
    ((bits / 0x80_0000) % 256) as nat
}

/// The fraction of a bit pattern.
pub open spec fn fraction_field(bits: u32) -> nat {
    (bits % 0x80_0000) as nat
}

/// Whether the sign of a bit pattern is set.
pub open spec fn sign_bit(bits: u32) -> bool {
    bits >= 0x8000_0000
}

/// Whether a bit pattern stands for no number.
pub open spec fn is_nan(bits: u32) -> bool {
    exponent_field(bits) == 255 && fraction_field(bits) != 0
}

/// The magnitude of the sample that a bit pattern stands for, multiplied by
/// 2^149. Every finite sample gives an integer; an infinity gives a number
/// above every finite one.
pub open spec fn scaled_magnitude(bits: u32) -> nat {
    let e = exponent_field(bits);
    let f = fraction_field(bits);
    if e == 0 {
        f
    } else {
        (0x80_0000 + f) * pow2((e - 1) as nat)
    }
}

/// The sample that a bit pattern stands for, multiplied by 2^149. Two
/// samples compare as their scaled values do.
pub open spec fn scaled_value(bits: u32) -> int {
    if sign_bit(bits) {
        -(scaled_magnitude(bits) as int)
    } else {
        scaled_magnitude(bits) as int
    }
}

/// The scaled value of the sample `1.0`.
pub open spec fn scaled_one() -> int {
    pow2(149) as int
}

/// Whether a bit pattern stands for a sample in `[-1.0, 1.0]`.
pub open spec fn in_unit_range(bits: u32) -> bool {
    !is_nan(bits) && scaled_magnitude(bits) <= scaled_one()
}

/// The integer nearest to `num / den`, for a positive `den`; a tie goes away
/// from zero.
pub open spec fn round_half_away(num: int, den: int) -> int {
    if num >= 0 {
        (2 * num + den) / (2 * den)
    } else {
        -((2 * (-num) + den) / (2 * den))
    }
}

/// The nearest value that a native sample can hold.
pub open spec fn saturate(v: int) -> int {
    if v < i16::MIN {
        i16::MIN as int
    } else if v > i16::MAX {
        i16::MAX as int
    } else {
        v
    }
}

/// The native sample of a bit pattern: the sample times 32767, rounded to the
/// nearest integer. Outside the unit range the result stops at the ends of
/// the native type, and what is no number gives zero.
pub open spec fn native_sample(bits: u32) -> int {
    if is_nan(bits) {
        0
    } else {
        saturate(round_half_away(NATIVE_PEAK * scaled_value(bits), scaled_one()))
    }
}

/// The native samples of a buffer, one for one and in order.
pub open spec fn native_samples(bits: Seq<u32>) -> Seq<i16> {
    Seq::new(bits.len(), |i: int| native_sample(bits[i]) as i16)
}

/// The rounded product of a non-negative scaled value, before saturation.
spec fn rounded_product(magnitude: nat) -> int {
    (2 * (NATIVE_PEAK * magnitude) + scaled_one()) / (2 * scaled_one())
}

proof fn lemma_rounded_product_monotonic(a: nat, b: nat)
    requires
        a <= b,
    ensures
        0 <= rounded_product(a) <= rounded_product(b),
{
    lemma_pow2_pos(149);
    let d = 2 * scaled_one();
    let na = 2 * (NATIVE_PEAK * a) + scaled_one();
    let nb = 2 * (NATIVE_PEAK * b) + scaled_one();
    assert(NATIVE_PEAK * a <= NATIVE_PEAK * b) by (nonlinear_arith)
        requires
            a <= b,
    ;
    assert(0 <= NATIVE_PEAK * a) by (nonlinear_arith);
    lemma_div_is_ordered(na, nb, d);
    lemma_div_is_ordered(0, na, d);
    lemma_basic_div(0, d);
}

proof fn lemma_rounded_product_of_one()
    ensures
        rounded_product(scaled_one() as nat) == NATIVE_PEAK,
{
    lemma_pow2_pos(149);
    let u = scaled_one();
    let d = 2 * u;
    // 2 * 32767 * u + u == 32767 * d + u, and 0 <= u < d
    assert(2 * (NATIVE_PEAK * u) + u == d * 32767 + u) by (nonlinear_arith)
        requires
            d == 2 * u,
    ;
    lemma_fundamental_div_mod_converse_div(
        2 * (NATIVE_PEAK * u) + u,
        d,
        32767,
        u,
    );
}

/// Within the unit range the conversion stays within the peak and needs no
/// saturation: the native sample is the rounded product itself.
pub proof fn lemma_unit_range_within_peak(bits: u32)
    requires
        in_unit_range(bits),
    ensures
        -NATIVE_PEAK <= native_sample(bits) <= NATIVE_PEAK,
        native_sample(bits) == round_half_away(NATIVE_PEAK * scaled_value(bits), scaled_one()),
{
    let m = scaled_magnitude(bits);
    lemma_rounded_product_monotonic(m, scaled_one() as nat);
    lemma_rounded_product_of_one();
    lemma_round_of_scaled(bits);
}

/// Rounding the product of a scaled value is rounding the product of its
/// magnitude, with the sign put back.
proof fn lemma_round_of_scaled(bits: u32)
    ensures
        round_half_away(NATIVE_PEAK * scaled_value(bits), scaled_one()) == if sign_bit(bits) {
            -rounded_product(scaled_magnitude(bits))
        } else {
            rounded_product(scaled_magnitude(bits))
        },
{
    lemma_pow2_pos(149);
    let m = scaled_magnitude(bits);
    let p = NATIVE_PEAK * m;
    assert(0 <= p) by (nonlinear_arith)
        requires
            p == NATIVE_PEAK * m,
    ;
    if sign_bit(bits) {
        assert(NATIVE_PEAK * (-(m as int)) == -p) by (nonlinear_arith)
            requires
                p == NATIVE_PEAK * m,
        ;
        if p == 0 {
            assert(rounded_product(m) == 0) by {
                lemma_basic_div(scaled_one(), 2 * scaled_one());
            }
        }
    }
}

/// The conversion keeps the order of samples: a sample that is not above
/// another has a native sample that is not above the other's.
pub proof fn lemma_conversion_monotonic(a: u32, b: u32)
    requires
        !is_nan(a),
        !is_nan(b),
        scaled_value(a) <= scaled_value(b),
    ensures
        native_sample(a) <= native_sample(b),
{
    lemma_round_of_scaled(a);
    lemma_round_of_scaled(b);
    let ma = scaled_magnitude(a);
    let mb = scaled_magnitude(b);
    lemma_rounded_product_monotonic(0, ma);
    lemma_rounded_product_monotonic(0, mb);
    if sign_bit(a) && sign_bit(b) {
        lemma_rounded_product_monotonic(mb, ma);
    } else if !sign_bit(a) && !sign_bit(b) {
        lemma_rounded_product_monotonic(ma, mb);
    } else if !sign_bit(a) && sign_bit(b) {
        // a is not negative, b is not positive: both are zero
        assert(ma == 0 && mb == 0);
    }
}

/// The significand of a finite bit pattern: its magnitude is
/// `significand / 2^scale`.
spec fn significand(e: nat, f: nat) -> nat {
    if e == 0 {
        f
    } else {
        0x80_0000 + f
    }
}

spec fn scale(e: nat) -> nat
    recommends
        e <= 150,
{
    if e == 0 {
        149
    } else {
        (150 - e) as nat
    }
}

proof fn lemma_magnitude_by_scale(bits: u32)
    requires
        exponent_field(bits) <= 150,
    ensures
        scale(exponent_field(bits)) <= 149,
        scaled_magnitude(bits) == significand(exponent_field(bits), fraction_field(bits)) * pow2(
            (149 - scale(exponent_field(bits))) as nat,
        ),
        pow2(149) == pow2(scale(exponent_field(bits))) * pow2(
            (149 - scale(exponent_field(bits))) as nat,
        ),
{
    let e = exponent_field(bits);
    let f = fraction_field(bits);
    let s = scale(e);
    lemma2_to64();
    lemma_pow2_adds(s, (149 - s) as nat);
    if e == 0 {
        assert(f * pow2(0) == f) by (nonlinear_arith)
            requires
                pow2(0) == 1,
        ;
    } else {
        assert((149 - s) as nat == (e - 1) as nat);
    }
}

/// For a small magnitude the rounded product is zero.
proof fn lemma_rounds_to_zero(bits: u32)
    requires
        exponent_field(bits) <= 110,
    ensures
        rounded_product(scaled_magnitude(bits)) == 0,
{
    let e = exponent_field(bits);
    let f = fraction_field(bits);
    let m = significand(e, f);
    let s = scale(e);
    lemma_magnitude_by_scale(bits);
    let k = pow2((149 - s) as nat);
    lemma_pow2_pos((149 - s) as nat);
    lemma_pow2_pos(149);
    lemma2_to64();
    lemma2_to64_rest();
    // k <= 2^109, m < 2^24, so 32767 * m * k < 2^15 * 2^24 * 2^109 = 2^148
    if 149 - s < 109 {
        lemma_pow2_strictly_increases((149 - s) as nat, 109);
    }
    assert(k <= pow2(109));
    lemma_pow2_adds(109, 39);
    lemma_pow2_adds(148, 1);
    assert(pow2(39) == 0x80_0000_0000);
    assert(pow2(1) == 2);
    let mag = scaled_magnitude(bits);
    assert(NATIVE_PEAK * mag < pow2(148)) by (nonlinear_arith)
        requires
            mag == m * k,
            m < 0x100_0000,
            0 < k <= pow2(109),
            pow2(148) == pow2(109) * 0x80_0000_0000,
    ;
    assert(pow2(149) == 2 * pow2(148)) by (nonlinear_arith)
        requires
            pow2(149) == pow2(148) * 2,
    ;
    assert(0 <= NATIVE_PEAK * mag) by (nonlinear_arith);
    lemma_basic_div(2 * (NATIVE_PEAK * mag) + scaled_one(), 2 * scaled_one());
}

/// For a large magnitude the rounded product is above the native range.
proof fn lemma_rounds_above_range(bits: u32)
    requires
        exponent_field(bits) >= 143,
    ensures
        rounded_product(scaled_magnitude(bits)) >= 32768,
{
    let e = exponent_field(bits);
    let f = fraction_field(bits);
    let mag = scaled_magnitude(bits);
    lemma2_to64();
    lemma_pow2_pos(149);
    if e - 1 > 142 {
        lemma_pow2_strictly_increases(142, (e - 1) as nat);
    }
    lemma_pow2_adds(142, 7);
    assert(pow2(7) == 128);
    let k = pow2((e - 1) as nat);
    // mag >= 2^23 * 2^142 = 2^16 * 2^149
    assert(mag >= 0x1_0000 * pow2(149)) by (nonlinear_arith)
        requires
            mag == (0x80_0000 + f) * k,
            k >= pow2(142),
            pow2(149) == pow2(142) * 128,
            pow2(142) > 0,
    ;
    let low = (0x1_0000 * pow2(149)) as nat;
    lemma_rounded_product_monotonic(low, mag);
    let u = scaled_one();
    assert(2 * (NATIVE_PEAK * low) + u >= (2 * u) * 32768) by (nonlinear_arith)
        requires
            low == 0x1_0000 * u,
            u > 0,
    ;
    lemma_div_is_ordered((2 * u) * 32768, 2 * (NATIVE_PEAK * low) + u, 2 * u);
    lemma_div_multiples_vanish(32768, 2 * u);
}

/// The rounded product of a bit pattern that stands for a number, cut off
/// at 32768.
fn rounded_magnitude(bits: u32) -> (r: u32)
    requires
        !is_nan(bits),
    ensures
        r <= 32768,
        r == if rounded_product(scaled_magnitude(bits)) >= 32768 {
            32768
        } else {
            rounded_product(scaled_magnitude(bits))
        },
{
    let e: u32 = (bits / 0x80_0000) % 256;
    let f: u32 = bits % 0x80_0000;
    if e >= 143 {
        proof {
            lemma_rounds_above_range(bits);
        }
        return 32768;
    }
    if e <= 110 {
        proof {
            lemma_rounds_to_zero(bits);
        }
        return 0;
    }
    let m: u64 = (f + 0x80_0000) as u64;
    let shift: u64 = (150 - e) as u64;
    proof {
        lemma2_to64();
        lemma2_to64_rest();
        if shift < 39 {
            lemma_pow2_strictly_increases(shift as nat, 39);
        }
        assert(pow2(39) == 0x80_0000_0000);
        lemma_pow2_pos(shift as nat);
        lemma_u64_shl_is_mul(1, shift);
    }
    let p: u64 = 1u64 << shift;
    assert(p == pow2(shift as nat));
    let num: u64 = 2 * (32767 * m) + p;
    let q: u64 = num / (2 * p);
    proof {
        lemma_magnitude_by_scale(bits);
        let k = pow2((149 - shift) as nat) as int;
        lemma_pow2_pos((149 - shift) as nat);
        let mag = scaled_magnitude(bits);
        assert(k * (num as int) == 2 * (NATIVE_PEAK * mag) + scaled_one()) by (nonlinear_arith)
            requires
                num == 2 * (32767 * m) + p,
                mag == m * k,
                scaled_one() == p * k,
        ;
        assert(k * (2 * p as int) == 2 * scaled_one()) by (nonlinear_arith)
            requires
                scaled_one() == p * k,
        ;
        lemma_div_multiples_vanish_quotient(k, num as int, 2 * p as int);
        assert(q == rounded_product(mag));
    }
    if q >= 32768 {
        32768
    } else {
        q as u32
    }
}

/// Converts one sample, given as its bit pattern, to a native sample.
pub fn float_to_native(bits: u32) -> (native: i16)
    ensures
        native == native_sample(bits),
{
    let e: u32 = (bits / 0x80_0000) % 256;
    let f: u32 = bits % 0x80_0000;
    if e == 255 && f != 0 {
        return 0;
    }
    let r: u32 = rounded_magnitude(bits);
    proof {
        lemma_round_of_scaled(bits);
    }
    if bits >= 0x8000_0000 {
        if r >= 32768 {
            i16::MIN
        } else {
            -(r as i16)
        }
    } else {
        if r >= 32767 {
            i16::MAX
        } else {
            r as i16
        }
    }
}

/// Converts a buffer of samples into `output`, which takes the length of the
/// input; the order of the samples is kept.
pub fn convert_buffer(input: &[u32], output: &mut Vec<i16>)
    ensures
        final(output)@ == native_samples(input@),
{
    output.clear();
    let mut i: usize = 0;
    while i < input.len()
        invariant
            i <= input.len(),
            output@.len() == i,
            forall|j: int| 0 <= j < i ==> output@[j] == native_sample(#[trigger] input@[j]),
        decreases input.len() - i,
    {
        output.push(float_to_native(input[i]));
        i += 1;
    }
    assert(output@ =~= native_samples(input@));
}

} // verus!
