//! Conversions between 64-bit integers and binary64 bit patterns, carried out
//! on the bit patterns themselves.

use vstd::prelude::*;
use vstd::arithmetic::div_mod::{lemma_fundamental_div_mod, lemma_mod_bound};
use vstd::arithmetic::power2::{lemma2_to64, lemma_pow2_pos, lemma_pow2_strictly_increases, pow2};
use vstd::bits::{lemma_u64_shl_is_mul, lemma_u64_shr_is_div};

verus! {

/// The fraction field of a binary64 pattern.
pub const FRACTION_MASK: u64 = 0x000f_ffff_ffff_ffff;

/// The implicit leading one of a normal binary64 significand.
pub const HIDDEN_BIT: u64 = 0x0010_0000_0000_0000;

/// The sign bit of a binary64 pattern.
pub const SIGN_BIT: u64 = 0x8000_0000_0000_0000;

/// The biased exponent field of a binary64 pattern.
pub open spec fn exponent_of(bits: u64) -> u64 {
    (bits >> 52) & 0x7ff
}

/// The fraction field of a binary64 pattern.
pub open spec fn fraction_of(bits: u64) -> u64 {
    bits & FRACTION_MASK
}

/// Whether the sign bit of a binary64 pattern is set.
pub open spec fn is_negative(bits: u64) -> bool {
    bits & SIGN_BIT != 0
}

/// The integer that a binary64 pattern truncates to, rounding toward zero.
/// Not-a-number gives zero; a magnitude of two to the sixty-third or more
/// gives the nearest end of the 64-bit signed range.
pub open spec fn truncated(bits: u64) -> int {
    let e = exponent_of(bits);
    let f = fraction_of(bits);
    let m = f | HIDDEN_BIT;
    if e == 0x7ff && f != 0 {
        0
    } else if e < 1023 {
        0
    } else if e >= 1086 {
        if is_negative(bits) { i64::MIN as int } else { i64::MAX as int }
    } else {
        let mag: u64 = if e >= 1075 { m << ((e - 1075) as u64) } else { m >> ((1075 - e) as u64) };
        if is_negative(bits) { -(mag as int) } else { mag as int }
    }
}

/// Truncates a binary64 pattern toward zero.
pub fn truncate(bits: u64) -> (r: i64)
    ensures
        r == truncated(bits),
{
    let e: u64 = (bits >> 52) & 0x7ff;
    let f: u64 = bits & FRACTION_MASK;
    let m: u64 = f | HIDDEN_BIT;
    let negative = bits & SIGN_BIT != 0;
    if e == 0x7ff && f != 0 {
        0
    } else if e < 1023 {
        0
    } else if e >= 1086 {
        if negative { i64::MIN } else { i64::MAX }
    } else {
        let mag: u64 = if e >= 1075 {
            let s: u64 = e - 1075;
            assert(m << s <= 0x7fff_ffff_ffff_ffff) by (bit_vector)
                requires
                    m == (bits & 0x000f_ffff_ffff_ffff) | 0x0010_0000_0000_0000,
                    s <= 10,
            ;
            m << s
        } else {
            let s: u64 = 1075 - e;
            assert(m >> s <= 0x7fff_ffff_ffff_ffff) by (bit_vector)
                requires
                    m == (bits & 0x000f_ffff_ffff_ffff) | 0x0010_0000_0000_0000,
                    s <= 63,
            ;
            m >> s
        };
        if negative { -(mag as i64) } else { mag as i64 }
    }
}

/// The position of the highest set bit of `m`; zero for zero.
pub open spec fn top_bit(m: u64) -> nat
    decreases m,
{
    if m <= 1 { 0 } else { 1 + top_bit(m / 2) }
}

/// The magnitude of a 64-bit signed integer.
pub open spec fn magnitude(v: i64) -> u64 {
    if v < 0 { (-(v as int)) as u64 } else { v as u64 }
}

/// The significand of `m` cut down to 53 bits, rounded to nearest, ties to
/// even, where `p` is the top bit of `m` and is above 52.
pub open spec fn rounded(m: u64, p: u64) -> u64 {
    let s = (p - 52) as u64;
    let q = m >> s;
    let rem = m & (((1u64 << s) - 1) as u64);
    let half = 1u64 << ((s - 1) as u64);
    if rem > half || (rem == half && q & 1 == 1) { (q + 1) as u64 } else { q }
}

/// The binary64 pattern nearest to the integer `v`, ties to even. Exact for
/// every magnitude up to two to the fifty-third.
pub open spec fn widened(v: i64) -> u64 {
    let sign: u64 = if v < 0 { SIGN_BIT } else { 0 };
    let m = magnitude(v);
    let p = top_bit(m) as u64;
    if v == 0 {
        0
    } else if p <= 52 {
        sign | ((1023 + p) as u64) << 52 | ((m << ((52 - p) as u64)) & FRACTION_MASK)
    } else if rounded(m, p) == 0x0020_0000_0000_0000 {
        sign | ((1024 + p) as u64) << 52
    } else {
        sign | ((1023 + p) as u64) << 52 | (rounded(m, p) & FRACTION_MASK)
    }
}

/// Finds the highest set bit of `m`.
pub fn highest_bit(m: u64) -> (p: u64)
    ensures
        p == top_bit(m),
        p <= 63,
{
    let mut p: u64 = 0;
    let mut r: u64 = m;
    assert(m >> 0 == m) by (bit_vector);
    while r > 1
        invariant
            p <= 63,
            r == m >> p,
            top_bit(m) == p + top_bit(r),
        decreases r,
    {
        assert(p < 63 && (m >> p) >> 1 == m >> ((p + 1) as u64) && (m >> p) >> 1 == (m >> p) / 2) by (bit_vector)
            requires
                p <= 63,
                m >> p > 1,
        ;
        r = r >> 1;
        p = p + 1;
    }
    p
}

/// Widens a 64-bit signed integer to the nearest binary64 pattern.
pub fn widen(v: i64) -> (bits: u64)
    ensures
        bits == widened(v),
{
    if v == 0 {
        return 0;
    }
    let sign: u64 = if v < 0 { SIGN_BIT } else { 0 };
    let m: u64 = if v == i64::MIN {
        SIGN_BIT
    } else if v < 0 {
        (-v) as u64
    } else {
        v as u64
    };
    let p: u64 = highest_bit(m);
    if p <= 52 {
        sign | (1023 + p) << 52 | ((m << (52 - p)) & FRACTION_MASK)
    } else {
        let s: u64 = p - 52;
        let q: u64 = m >> s;
        assert(1u64 << s >= 1 && m >> s < 0xffff_ffff_ffff_ffff) by (bit_vector)
            requires
                1 <= s <= 11,
        ;
        let rem: u64 = m & ((1u64 << s) - 1);
        let half: u64 = 1u64 << (s - 1);
        let q2: u64 = if rem > half || (rem == half && q & 1 == 1) { q + 1 } else { q };
        if q2 == 0x0020_0000_0000_0000 {
            sign | (1024 + p) << 52
        } else {
            sign | (1023 + p) << 52 | (q2 & FRACTION_MASK)
        }
    }
}

/// The highest set bit of a nonzero `m` is the one that is left when all
/// below it are shifted out.
pub proof fn top_bit_is_leading(m: u64)
    requires
        m >= 1,
    ensures
        top_bit(m) <= 63,
        m >> (top_bit(m) as u64) == 1,
    decreases m,
{
    if m <= 1 {
        assert(m >> 0 == m) by (bit_vector);
    } else {
        let h: u64 = m / 2;
        top_bit_is_leading(h);
        let k: u64 = top_bit(h) as u64;
        assert(k < 63 && m >> ((k + 1) as u64) == 1) by (bit_vector)
            requires
                k <= 63,
                h == m / 2,
                h >> k == 1,
        ;
    }
}

/// Widening is exact for every integer of magnitude up to two to the
/// fifty-third: truncating the result gives the integer back.
pub proof fn widening_is_lossless(v: i64)
    requires
        -0x0020_0000_0000_0000 <= v <= 0x0020_0000_0000_0000,
    ensures
        truncated(widened(v)) == v,
{
    let bits = widened(v);
    if v == 0 {
        assert((0u64 >> 52) & 0x7ff == 0) by (bit_vector);
        assert(0u64 & 0x000f_ffff_ffff_ffff == 0) by (bit_vector);
    } else {
        let sign: u64 = if v < 0 { SIGN_BIT } else { 0 };
        let m = magnitude(v);
        top_bit_is_leading(m);
        let p = top_bit(m) as u64;
        assert(p <= 53 && (p == 53 ==> m == 0x0020_0000_0000_0000)) by (bit_vector)
            requires
                p <= 63,
                m <= 0x0020_0000_0000_0000,
                m >> p == 1,
        ;
        if p <= 52 {
            let e: u64 = (1023 + p) as u64;
            let d: u64 = (52 - p) as u64;
            assert(bits == sign | e << 52 | ((m << d) & 0x000f_ffff_ffff_ffff));
            let mm: u64 = (bits & 0x000f_ffff_ffff_ffff) | 0x0010_0000_0000_0000;
            let z: u64 = 0;
            assert((bits >> 52) & 0x7ff == e && (p < 52 ==> mm >> d == m) && (p == 52 ==> mm << z == m) && ((bits
                & 0x8000_0000_0000_0000) != 0) == (sign != 0)) by (bit_vector)
                requires
                    p <= 52,
                    e == 1023 + p,
                    d == 52 - p,
                    z == 0,
                    m >> p == 1,
                    sign == 0 || sign == 0x8000_0000_0000_0000,
                    bits == sign | e << 52 | ((m << d) & 0x000f_ffff_ffff_ffff),
                    mm == (bits & 0x000f_ffff_ffff_ffff) | 0x0010_0000_0000_0000,
            ;
        } else {
            let s: u64 = 1;
            let q: u64 = m >> s;
            assert(q == 0x0010_0000_0000_0000 && m & (((1u64 << s) - 1) as u64) == 0 && 1u64 << ((s - 1) as u64) == 1) by (bit_vector)
                requires
                    m == 0x0020_0000_0000_0000,
                    s == 1,
                    q == m >> s,
            ;
            assert(rounded(m, p) == 0x0010_0000_0000_0000);
            let e: u64 = 1076;
            assert(bits == sign | e << 52 | (0x0010_0000_0000_0000u64 & 0x000f_ffff_ffff_ffff));
            assert((bits >> 52) & 0x7ff == 1076 && (((bits & 0x000f_ffff_ffff_ffff) | 0x0010_0000_0000_0000) << 1)
                == 0x0020_0000_0000_0000 && ((bits & 0x8000_0000_0000_0000) != 0) == (sign != 0)) by (bit_vector)
                requires
                    e == 1076,
                    sign == 0 || sign == 0x8000_0000_0000_0000,
                    bits == sign | e << 52 | (0x0010_0000_0000_0000u64 & 0x000f_ffff_ffff_ffff),
            ;
        }
    }
}

/// The significand of a normal pattern: its fraction under the hidden bit.
/// The value of such a pattern has the magnitude of the significand times
/// two to the power of the exponent field less 1075.
pub open spec fn significand_of(bits: u64) -> u64 {
    fraction_of(bits) | HIDDEN_BIT
}

/// The magnitude of an integer.
pub open spec fn abs(i: int) -> int {
    if i < 0 { -i } else { i }
}

/// Truncation rounds toward zero. For a pattern whose value is at least one
/// and below two to the sixty-third in magnitude, the result's magnitude is
/// the largest integer not above the value's, and its sign follows the sign
/// bit. A pattern whose value is below one in magnitude gives zero.
pub proof fn truncation_rounds_toward_zero(bits: u64)
    ensures
        exponent_of(bits) < 1023 ==> truncated(bits) == 0,
        1023 <= exponent_of(bits) < 1086 && is_negative(bits) ==> truncated(bits) <= 0,
        1023 <= exponent_of(bits) < 1086 && !is_negative(bits) ==> truncated(bits) >= 0,
        1075 <= exponent_of(bits) < 1086 ==> abs(truncated(bits)) == significand_of(bits) * pow2(
            (exponent_of(bits) - 1075) as nat,
        ),
        1023 <= exponent_of(bits) < 1075 ==> abs(truncated(bits)) * pow2((1075 - exponent_of(bits)) as nat)
            <= significand_of(bits) < (abs(truncated(bits)) + 1) * pow2((1075 - exponent_of(bits)) as nat),
{
    let e = exponent_of(bits);
    let m = significand_of(bits);
    assert(m < 0x0020_0000_0000_0000) by (bit_vector)
        requires
            m == (bits & 0x000f_ffff_ffff_ffff) | 0x0010_0000_0000_0000,
    ;
    lemma2_to64();
    if 1075 <= e < 1086 {
        let k: u64 = (e - 1075) as u64;
        if k < 10 {
            lemma_pow2_strictly_increases(k as nat, 10);
        }
        lemma_pow2_pos(k as nat);
        assert(m * pow2(k as nat) <= u64::MAX) by (nonlinear_arith)
            requires
                m < 0x0020_0000_0000_0000,
                0 < pow2(k as nat) <= 0x400,
        ;
        lemma_u64_shl_is_mul(m, k);
    } else if 1023 <= e < 1075 {
        let k: u64 = (1075 - e) as u64;
        let d = pow2(k as nat) as int;
        lemma_pow2_pos(k as nat);
        lemma_u64_shr_is_div(m, k);
        let r = (m >> k) as int;
        assert(r == m as int / d);
        lemma_fundamental_div_mod(m as int, d);
        lemma_mod_bound(m as int, d);
        assert(r * d <= m < (r + 1) * d) by (nonlinear_arith)
            requires
                m == d * r + (m as int % d),
                0 <= (m as int % d) < d,
        ;
    }
}

/// Widening rounds to a nearest pattern. An integer whose top bit is at most
/// the fifty-second comes back from truncation as it went in; a larger one
/// comes back less than one rounding step away, the step being two to the
/// power of its top bit less 52.
pub proof fn widening_is_near(v: i64)
    ensures
        top_bit(magnitude(v)) <= 52 ==> truncated(widened(v)) == v,
        top_bit(magnitude(v)) > 52 ==> abs(truncated(widened(v)) - v) < pow2(
            (top_bit(magnitude(v)) - 52) as nat,
        ),
{
    let m = magnitude(v);
    if v == 0 {
        widening_is_lossless(v);
    } else {
        top_bit_is_leading(m);
        let p = top_bit(m) as u64;
        assert(m <= 0x8000_0000_0000_0000);
        if p <= 52 {
            assert(m < 0x0020_0000_0000_0000) by (bit_vector)
                requires
                    p <= 52,
                    m >> p == 1,
            ;
            widening_is_lossless(v);
        } else {
            let bits = widened(v);
            let sign: u64 = if v < 0 { SIGN_BIT } else { 0 };
            let s: u64 = (p - 52) as u64;
            let q: u64 = m >> s;
            let rem: u64 = m & (((1u64 << s) - 1) as u64);
            let half: u64 = 1u64 << ((s - 1) as u64);
            let r: u64 = rounded(m, p);
            let step: u64 = 1u64 << s;
            assert(1u64 << s >= 1 && q < 0x0020_0000_0000_0000 && q >= 0x0010_0000_0000_0000) by (bit_vector)
                requires
                    53 <= p <= 63,
                    s == p - 52,
                    m >> p == 1,
                    q == m >> s,
            ;
            assert(r == if rem > half || (rem == half && q & 1 == 1) { (q + 1) as u64 } else { q });
            lemma2_to64();
            lemma_pow2_pos(s as nat);
            if s < 11 {
                lemma_pow2_strictly_increases(s as nat, 11);
            }
            assert(1 * pow2(s as nat) <= u64::MAX);
            lemma_u64_shl_is_mul(1, s);
            assert(step == pow2(s as nat));
            if p == 63 {
                assert(m == 0x8000_0000_0000_0000) by (bit_vector)
                    requires
                        p == 63,
                        m >> p == 1,
                        m <= 0x8000_0000_0000_0000,
                ;
                assert(r == 0x0010_0000_0000_0000 && (m >> p) == 1) by (bit_vector)
                    requires
                        m == 0x8000_0000_0000_0000,
                        p == 63,
                        s == 11,
                        q == m >> s,
                        rem == m & (((1u64 << s) - 1) as u64),
                        half == 1u64 << ((s - 1) as u64),
                        r == if rem > half || (rem == half && q & 1 == 1) { (q + 1) as u64 } else { q },
                ;
                let e: u64 = 1086;
                assert(bits == sign | e << 52 | (r & 0x000f_ffff_ffff_ffff));
                assert((bits >> 52) & 0x7ff == 1086 && (bits & 0x000f_ffff_ffff_ffff) == 0 && (bits
                    & 0x8000_0000_0000_0000) != 0) by (bit_vector)
                    requires
                        e == 1086,
                        r == 0x0010_0000_0000_0000,
                        sign == 0x8000_0000_0000_0000,
                        bits == sign | e << 52 | (r & 0x000f_ffff_ffff_ffff),
                ;
            } else if r == 0x0020_0000_0000_0000 {
                let e: u64 = (1024 + p) as u64;
                let k: u64 = (s + 1) as u64;
                let hidden: u64 = 0x0010_0000_0000_0000;
                assert(bits == sign | e << 52);
                assert((bits >> 52) & 0x7ff == e && ((bits & 0x000f_ffff_ffff_ffff) | 0x0010_0000_0000_0000)
                    == 0x0010_0000_0000_0000 && ((bits & 0x8000_0000_0000_0000) != 0) == (sign != 0)) by (bit_vector)
                    requires
                        53 <= p <= 62,
                        e == 1024 + p,
                        sign == 0 || sign == 0x8000_0000_0000_0000,
                        bits == sign | e << 52,
                ;
                assert(m + step > 0x8000_0000_0000_0000 ==> p == 62) by (bit_vector)
                    requires
                        53 <= p <= 62,
                        s == p - 52,
                        m >> p == 1,
                        step == 1u64 << s,
                ;
                assert(q == 0x001f_ffff_ffff_ffff && rem >= half);
                assert(half >= 1) by (bit_vector)
                    requires
                        1 <= s <= 10,
                        half == 1u64 << ((s - 1) as u64),
                ;
                assert(p <= 61 ==> (hidden << k) >= m && (hidden << k) < m + step) by (bit_vector)
                    requires
                        53 <= p <= 62,
                        s == p - 52,
                        k == s + 1,
                        hidden == 0x0010_0000_0000_0000,
                        step == 1u64 << s,
                        q == m >> s,
                        q == 0x001f_ffff_ffff_ffff,
                        rem == m & (((1u64 << s) - 1) as u64),
                        rem >= 1,
                ;
                assert(p == 62 ==> m + step > 0x8000_0000_0000_0000) by (bit_vector)
                    requires
                        p == 62 ==> s == 10,
                        step == 1u64 << s,
                        q == m >> s,
                        rem == m & (((1u64 << s) - 1) as u64),
                        half == 1u64 << ((s - 1) as u64),
                        r == if rem > half || (rem == half && q & 1 == 1) { (q + 1) as u64 } else { q },
                        r == 0x0020_0000_0000_0000,
                ;
                if p <= 61 {
                    assert(((e - 1075) as u64) == k);
                } else {
                    assert(e == 1086);
                }
            } else {
                let e: u64 = (1023 + p) as u64;
                assert(bits == sign | e << 52 | (r & 0x000f_ffff_ffff_ffff));
                assert(r < 0x0020_0000_0000_0000);
                assert((bits >> 52) & 0x7ff == e && ((bits & 0x000f_ffff_ffff_ffff) | 0x0010_0000_0000_0000) == r
                    && ((bits & 0x8000_0000_0000_0000) != 0) == (sign != 0)) by (bit_vector)
                    requires
                        53 <= p <= 62,
                        e == 1023 + p,
                        0x0010_0000_0000_0000 <= r < 0x0020_0000_0000_0000,
                        sign == 0 || sign == 0x8000_0000_0000_0000,
                        bits == sign | e << 52 | (r & 0x000f_ffff_ffff_ffff),
                ;
                assert((r << s) < m + step && m < (r << s) + step && (r << s) <= 0x8000_0000_0000_0000) by (bit_vector)
                    requires
                        53 <= p <= 62,
                        s == p - 52,
                        m >> p == 1,
                        step == 1u64 << s,
                        q == m >> s,
                        rem == m & (((1u64 << s) - 1) as u64),
                        half == 1u64 << ((s - 1) as u64),
                        r == if rem > half || (rem == half && q & 1 == 1) { (q + 1) as u64 } else { q },
                        r < 0x0020_0000_0000_0000,
                ;
                assert(((e - 1075) as u64) == s);
            }
        }
    }
}

} // verus!
