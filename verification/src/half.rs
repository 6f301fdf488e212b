//! Conversion of IEEE-754 half-precision values to single precision, on bit patterns.

use vstd::prelude::*;
use vstd::arithmetic::div_mod::lemma_fundamental_div_mod_converse;
use vstd::arithmetic::power2::{lemma2_to64, lemma_pow2_adds, lemma_pow2_strictly_increases, pow2};
use vstd::bits::lemma_u32_shl_is_mul;
use vstd::std_specs::bits::{axiom_u32_leading_zeros, u32_leading_zeros};

verus! {

/// The sign bit of a half-precision bit pattern.
pub open spec fn half_sign(bits: u32) -> u32 {
    (bits >> 15u32) & 1
}

/// The 5-bit exponent field of a half-precision bit pattern.
pub open spec fn half_exponent(bits: u32) -> u32 {
    (bits >> 10u32) & 0x1f
}

/// The 10-bit fraction field of a half-precision bit pattern.
pub open spec fn half_fraction(bits: u32) -> u32 {
    bits & 0x3ff
}

/// A single-precision bit pattern from its sign, 8-bit exponent and 23-bit mantissa fields.
pub open spec fn single_bits(sign: int, exponent: int, mantissa: int) -> int {
    sign * 0x8000_0000 + exponent * 0x80_0000 + mantissa
}

/// How far a non-zero subnormal fraction moves left so that its leading one lands on the
/// implicit bit (bit 10).
pub open spec fn subnormal_shift(fraction: u32) -> u32 {
    (u32_leading_zeros(fraction) - 21) as u32
}

/// The single-precision bit pattern of the same value as the half-precision pattern in the
/// low 16 bits of `bits`: zeros keep their sign; subnormals are normalised (the exponent
/// lowered by the shift); infinities stay infinite; every NaN becomes the quiet NaN of the same
/// sign; normal values get the exponent rebased from 15 to 127 and the fraction widened.
pub open spec fn half_to_single(bits: u32) -> int {
    let s = half_sign(bits) as int;
    let e = half_exponent(bits) as int;
    let f = half_fraction(bits);
    if e == 0 {
        if f == 0 {
            single_bits(s, 0, 0)
        } else {
            let k = subnormal_shift(f);
            single_bits(s, 113 - k, ((f << k) - 1024) * 8192)
        }
    } else if e == 31 {
        single_bits(s, 255, if f != 0 { 0x40_0000int } else { 0 })
    } else {
        single_bits(s, e + 112, f * 8192)
    }
}

/// A non-zero subnormal fraction moves left by 1 to 10 places, after which its leading one is
/// the implicit bit: the shifted fraction lies in `1024..2048`.
proof fn lemma_subnormal_shift(f: u32)
    requires
        1 <= f <= 1023,
    ensures
        22 <= u32_leading_zeros(f) < 32,
        1 <= subnormal_shift(f) <= 10,
        1024 <= (f << subnormal_shift(f)) < 2048,
{
    let lz = u32_leading_zeros(f);
    axiom_u32_leading_zeros(f);
    assert(lz < 32);
    let s31: u32 = (31 - lz) as u32;
    let s32: u32 = (32 - lz) as u32;
    assert((f >> s31) & 1u32 != 0u32);
    assert(f >> s32 == 0);
    assert(22 <= lz) by (bit_vector)
        requires
            1 <= f <= 1023,
            lz < 32,
            s31 == 31 - lz,
            (f >> s31) & 1u32 != 0u32,
    ;
    let k: u32 = (lz - 21) as u32;
    assert((f << k) >= 1024 && (f << k) < 2048) by (bit_vector)
        requires
            1 <= f <= 1023,
            22 <= lz < 32,
            s31 == 31 - lz,
            s32 == 32 - lz,
            k == lz - 21,
            (f >> s31) & 1u32 != 0u32,
            f >> s32 == 0,
    ;
}

/// Convert a single IEEE 754 half-precision float (16-bit) to the bits of an f32.
pub fn f16_to_f32_bits(bits: u32) -> (r: u32)
    ensures
        r == half_to_single(bits),
{
    let sign = (bits >> 15) & 1;
    let exp = (bits >> 10) & 0x1F;
    let frac = bits & 0x3FF;
    assert(sign <= 1 && exp <= 31 && frac <= 1023) by (bit_vector)
        requires
            sign == (bits >> 15u32) & 1,
            exp == (bits >> 10u32) & 0x1f,
            frac == bits & 0x3ff,
    ;
    if exp == 0 {
        if frac == 0 {
            assert(sign << 31u32 == sign * 0x8000_0000) by (bit_vector)
                requires
                    sign <= 1,
            ;
            sign << 31
        } else {
            let lz = frac.leading_zeros();
            proof {
                lemma_subnormal_shift(frac);
            }
            let shift = lz - 22 + 1;
            let normalized_frac = (frac << shift) & 0x3FF;
            let e = 113 - shift;
            let m = normalized_frac << 13;
            assert(normalized_frac == (frac << shift) - 1024) by (bit_vector)
                requires
                    (frac << shift) >= 1024,
                    (frac << shift) < 2048,
                    normalized_frac == (frac << shift) & 0x3ff,
            ;
            assert((sign << 31u32) | (e << 23u32) | m == sign * 0x8000_0000 + e * 0x80_0000
                + normalized_frac * 8192) by (bit_vector)
                requires
                    sign <= 1,
                    e <= 255,
                    normalized_frac <= 1023,
                    m == normalized_frac << 13u32,
            ;
            (sign << 31) | (e << 23) | m
        }
    } else if exp == 31 {
        let m: u32 = if frac != 0 { 0x0040_0000 } else { 0 };
        assert((sign << 31u32) | (0xFFu32 << 23u32) | m == sign * 0x8000_0000 + 255 * 0x80_0000 + m)
            by (bit_vector)
            requires
                sign <= 1,
                m == 0 || m == 0x40_0000,
        ;
        (sign << 31) | (0xFFu32 << 23) | m
    } else {
        let e = exp + 112;
        let m = frac << 13;
        assert((sign << 31u32) | (e << 23u32) | m == sign * 0x8000_0000 + e * 0x80_0000 + frac
            * 8192) by (bit_vector)
            requires
                sign <= 1,
                e <= 255,
                frac <= 1023,
                m == frac << 13u32,
        ;
        (sign << 31) | (e << 23) | m
    }
}

/// The half-precision pattern stored little-endian in bytes `2 * i` and `2 * i + 1`.
pub open spec fn half_at(b: Seq<u8>, i: int) -> u32 {
    (b[2 * i] + 256 * b[2 * i + 1]) as u32
}

/// Convert a slice of F16 bytes (little-endian pairs) to the bits of F32 values.
///
/// Each F16 value is 2 bytes in little-endian order. The returned vector
/// contains `bytes.len() / 2` elements.
pub fn f16_bytes_to_f32_bits(bytes: &[u8]) -> (r: Vec<u32>)
    requires
        bytes@.len() % 2 == 0,
    ensures
        r@.len() == bytes@.len() / 2,
        forall|i: int| 0 <= i < r@.len() ==> r@[i] == half_to_single(#[trigger] half_at(bytes@, i)),
{
    let mut result: Vec<u32> = Vec::new();
    let mut i: usize = 0;
    let n = bytes.len();
    while i < n
        invariant
            n == bytes@.len(),
            n % 2 == 0,
            i % 2 == 0,
            i <= n,
            result@.len() == i / 2,
            forall|j: int| 0 <= j < result@.len() ==> result@[j] == half_to_single(#[trigger] half_at(bytes@, j)),
        decreases n - i,
    {
        let lo = bytes[i] as u32;
        let hi = bytes[i + 1] as u32;
        let f16_bits = hi << 8 | lo;
        assert(f16_bits == lo + 256 * hi) by (bit_vector)
            requires
                lo <= 255,
                hi <= 255,
                f16_bits == hi << 8u32 | lo,
        ;
        assert(f16_bits == half_at(bytes@, i as int / 2));
        result.push(f16_to_f32_bits(f16_bits));
        i = i + 2;
    }
    result
}

// ---------------------------------------------------------------------------
// The conversion keeps the value
// ---------------------------------------------------------------------------

/// The magnitude of a finite half-precision pattern in steps of 2^-24, its smallest
/// subnormal: the fraction for a subnormal, `(1024 + fraction) * 2^(exponent - 1)` otherwise.
pub open spec fn half_magnitude(bits: u32) -> int {
    let e = half_exponent(bits);
    let f = half_fraction(bits);
    if e == 0 {
        f as int
    } else {
        (1024 + f) * pow2((e - 1) as nat)
    }
}

/// The sign bit of a single-precision pattern.
pub open spec fn single_sign(x: int) -> int {
    x / 0x8000_0000
}

/// The 8-bit exponent field of a single-precision pattern.
pub open spec fn single_exponent(x: int) -> int {
    (x / 0x80_0000) % 256
}

/// The 23-bit mantissa field of a single-precision pattern.
pub open spec fn single_mantissa(x: int) -> int {
    x % 0x80_0000
}

/// The magnitude of a finite single-precision pattern in steps of 2^-149, its smallest
/// subnormal: the mantissa for a subnormal, `(2^23 + mantissa) * 2^(exponent - 1)` otherwise.
pub open spec fn single_magnitude(x: int) -> int {
    let e = single_exponent(x);
    let m = single_mantissa(x);
    if e == 0 {
        m
    } else {
        (0x80_0000 + m) * pow2((e - 1) as nat)
    }
}

/// The fields of a single-precision pattern built from its fields read back.
proof fn lemma_single_fields(s: int, e: int, m: int)
    requires
        0 <= s <= 1,
        0 <= e <= 255,
        0 <= m < 0x80_0000,
    ensures
        single_sign(single_bits(s, e, m)) == s,
        single_exponent(single_bits(s, e, m)) == e,
        single_mantissa(single_bits(s, e, m)) == m,
{
    let x = single_bits(s, e, m);
    lemma_fundamental_div_mod_converse(x, 0x8000_0000, s, e * 0x80_0000 + m);
    lemma_fundamental_div_mod_converse(x, 0x80_0000, s * 256 + e, m);
    lemma_fundamental_div_mod_converse(s * 256 + e, 256, s, e);
}

/// Converting keeps the value and the sign. A finite half becomes a finite single of the same
/// sign whose magnitude is the same number (2^-24 is 2^125 steps of 2^-149); an infinity stays
/// an infinity and a NaN stays a NaN, with the same sign.
pub proof fn lemma_half_to_single_keeps_value(bits: u32)
    ensures
        single_sign(half_to_single(bits)) == half_sign(bits),
        half_exponent(bits) < 31 ==> single_exponent(half_to_single(bits)) < 255
            && single_magnitude(half_to_single(bits)) == half_magnitude(bits) * pow2(125),
        half_exponent(bits) == 31 ==> single_exponent(half_to_single(bits)) == 255 && (
        single_mantissa(half_to_single(bits)) == 0 <==> half_fraction(bits) == 0),
{
    let sb = half_sign(bits);
    let eb = half_exponent(bits);
    let f = half_fraction(bits);
    assert(sb <= 1 && eb <= 31 && f <= 1023) by (bit_vector)
        requires
            sb == (bits >> 15u32) & 1,
            eb == (bits >> 10u32) & 0x1f,
            f == bits & 0x3ff,
    ;
    let s = sb as int;
    let e = eb as int;
    let r = half_to_single(bits);
    lemma2_to64();
    if e == 0 {
        if f == 0 {
            lemma_single_fields(s, 0, 0);
            assert(single_magnitude(r) == half_magnitude(bits) * pow2(125));
        } else {
            lemma_subnormal_shift(f);
            let k = subnormal_shift(f);
            lemma_pow2_strictly_increases(k as nat, 11);
            let p = pow2(k as nat);
            assert(f * p <= u32::MAX) by (nonlinear_arith)
                requires
                    f <= 1023,
                    p < 2048,
            ;
            lemma_u32_shl_is_mul(f, k);
            let shifted = f * p;
            lemma_single_fields(s, 113 - k, (shifted - 1024) * 8192);
            lemma_pow2_adds(k as nat, (112 - k) as nat);
            lemma_pow2_adds(13, 112);
            let q = pow2((112 - k) as nat);
            assert(single_magnitude(r) == (0x80_0000 + (shifted - 1024) * 8192) * q);
            assert((0x80_0000 + (shifted - 1024) * 8192) * q == f * (p * q) * 8192)
                by (nonlinear_arith)
                requires
                    shifted == f * p,
            ;
            assert(p * q == pow2(112));
            assert(pow2(125) == 8192 * pow2(112));
            assert(f * pow2(112) * 8192 == f * (8192 * pow2(112))) by (nonlinear_arith);
            assert(single_exponent(r) == 113 - k);
            assert(single_magnitude(r) == half_magnitude(bits) * pow2(125));
        }
    } else if e == 31 {
        lemma_single_fields(s, 255, if f != 0 { 0x40_0000int } else { 0 });
    } else {
        lemma_single_fields(s, e + 112, f * 8192);
        let q = pow2((e + 111) as nat);
        lemma_pow2_adds(13, (e + 111) as nat);
        lemma_pow2_adds((e - 1) as nat, 125);
        assert(single_magnitude(r) == (0x80_0000 + f * 8192) * q);
        assert((0x80_0000 + f * 8192) * q == (1024 + f) * (8192 * q)) by (nonlinear_arith);
        assert(half_magnitude(bits) * pow2(125) == (1024 + f) * (pow2((e - 1) as nat) * pow2(125)))
            by (nonlinear_arith)
            requires
                half_magnitude(bits) == (1024 + f) * pow2((e - 1) as nat),
        ;
        assert(pow2((e - 1) as nat) * pow2(125) == pow2((e + 124) as nat));
        assert(8192 * q == pow2((e + 124) as nat));
        assert(single_magnitude(r) == half_magnitude(bits) * pow2(125));
    }
}

} // verus!
