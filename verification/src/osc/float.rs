//! Single-precision numbers as bit patterns.
//!
//! An OSC float argument is carried as the 32 bits of its IEEE-754 encoding:
//! one sign bit, eight exponent bits (biased by 127) and 23 fraction bits.
//! The two coercions that reply decoding needs, float to integer and integer
//! to float, are computed here on those bits with integer arithmetic alone.

use vstd::arithmetic::div_mod::lemma_fundamental_div_mod;
use vstd::arithmetic::power2::{
    lemma2_to64, lemma_pow2_adds, lemma_pow2_pos, lemma_pow2_strictly_increases,
    lemma_pow2_unfold, pow2,
};
use vstd::prelude::*;

verus! {

/// Weight of the lowest exponent bit: 2^23.
pub const FRACTION_SPAN: u32 = 0x80_0000;

/// Weight of the sign bit: 2^31.
pub const SIGN_BIT: u32 = 0x8000_0000;

/// The biased exponent of a bit pattern, 0 to 255.
pub open spec fn exponent_field(bits: u32) -> int {
    (bits as int / 0x80_0000) % 0x100
}

/// The 23 fraction bits of a bit pattern.
pub open spec fn fraction_field(bits: u32) -> int {
    bits as int % 0x80_0000
}

/// Whether the sign bit is set.
pub open spec fn sign_set(bits: u32) -> bool {
    bits >= 0x8000_0000
}

/// Whether the bit pattern encodes "not a number".
pub open spec fn is_nan(bits: u32) -> bool {
    exponent_field(bits) == 255 && fraction_field(bits) != 0
}

/// The whole part of the magnitude that a bit pattern encodes, for a pattern
/// that is not NaN. An encoded infinity gives a number beyond every 32-bit
/// integer.
pub open spec fn whole_magnitude(bits: u32) -> int {
    let e = exponent_field(bits);
    let significand = 0x80_0000 + fraction_field(bits);
    if e < 127 {
        0
    } else if e < 150 {
        significand / (pow2((150 - e) as nat) as int)
    } else {
        significand * pow2((e - 150) as nat)
    }
}

/// The integer that a float becomes when it is truncated toward zero:
/// NaN gives 0, and a number outside the 32-bit range gives the nearest bound.
pub open spec fn truncated(bits: u32) -> int {
    if is_nan(bits) {
        0
    } else {
        let signed = if sign_set(bits) {
            -whole_magnitude(bits)
        } else {
            whole_magnitude(bits)
        };
        if signed < i32::MIN {
            i32::MIN as int
        } else if signed > i32::MAX {
            i32::MAX as int
        } else {
            signed
        }
    }
}

/// The number of binary digits of `n`: 0 for 0, otherwise one more than the
/// position of the highest set bit.
pub open spec fn bit_length(n: nat) -> nat
    decreases n,
{
    if n == 0 {
        0
    } else {
        1 + bit_length(n / 2)
    }
}

/// The exponent and fraction bits of the float nearest to the positive
/// integer `n`, ties going to the even significand.
pub open spec fn magnitude_bits(n: nat) -> int {
    let p = bit_length(n) - 1;
    if p <= 23 {
        (127 + p) * 0x80_0000 + (n * pow2((23 - p) as nat) - 0x80_0000)
    } else {
        let unit = pow2((p - 23) as nat) as int;
        let kept = n as int / unit;
        let rest = n as int % unit;
        let up = 2 * rest > unit || (2 * rest == unit && kept % 2 == 1);
        (127 + p) * 0x80_0000 + (kept - 0x80_0000) + if up {
            1int
        } else {
            0int
        }
    }
}

/// The bit pattern of the float nearest to the integer `v`.
pub open spec fn int_as_float(v: int) -> int {
    if v == 0 {
        0
    } else if v > 0 {
        magnitude_bits(v as nat)
    } else {
        0x8000_0000 + magnitude_bits((-v) as nat)
    }
}

/// A positive number lies between the two powers of two that its bit length
/// names.
pub proof fn lemma_bit_length_bounds(n: nat)
    requires
        n >= 1,
    ensures
        bit_length(n) >= 1,
        pow2((bit_length(n) - 1) as nat) <= n < pow2(bit_length(n)),
    decreases n,
{
    lemma2_to64();
    if n == 1 {
        assert(bit_length(1) == 1 + bit_length(0));
    } else {
        lemma_bit_length_bounds(n / 2);
        let b = bit_length(n / 2);
        assert(bit_length(n) == 1 + b);
        lemma_pow2_unfold(b);
        lemma_pow2_unfold((b + 1) as nat);
    }
}

/// The bit length of a number below 2^k is at most k.
pub proof fn lemma_bit_length_limit(n: nat, k: nat)
    requires
        n < pow2(k),
    ensures
        bit_length(n) <= k,
{
    if n >= 1 {
        lemma_bit_length_bounds(n);
        let p = (bit_length(n) - 1) as nat;
        if p >= k {
            if p > k {
                lemma_pow2_strictly_increases(k, p);
            }
        }
    }
}

fn power_of_two(k: u32) -> (r: u32)
    requires
        k <= 31,
    ensures
        r == pow2(k as nat),
        1 <= r <= 0x8000_0000,
{
    let mut r: u32 = 1;
    let mut i: u32 = 0;
    proof {
        lemma2_to64();
    }
    while i < k
        invariant
            i <= k <= 31,
            r == pow2(i as nat),
            1 <= r,
        decreases k - i,
    {
        proof {
            lemma2_to64();
            lemma_pow2_unfold((i + 1) as nat);
            if i + 1 < 31 {
                lemma_pow2_strictly_increases((i + 1) as nat, 31);
            }
        }
        r = r * 2;
        i = i + 1;
    }
    proof {
        lemma2_to64();
        if k < 31 {
            lemma_pow2_strictly_increases(k as nat, 31);
        }
    }
    r
}

/// Truncates the float with the given bit pattern toward zero.
///
/// NaN becomes 0; a number too large or too small for 32 bits, infinities
/// included, becomes `i32::MAX` or `i32::MIN`.
pub fn float_bits_to_int(bits: u32) -> (r: i32)
    ensures
        r == truncated(bits),
{
    let e: u32 = (bits / FRACTION_SPAN) % 0x100;
    let fraction: u32 = bits % FRACTION_SPAN;
    let negative = bits >= SIGN_BIT;
    if e == 255 && fraction != 0 {
        return 0;
    }
    if e < 127 {
        return 0;
    }
    let significand: u32 = FRACTION_SPAN + fraction;
    if e >= 158 {
        proof {
            lemma2_to64();
            let k = (e - 150) as nat;
            if k > 8 {
                lemma_pow2_strictly_increases(8, k);
            }
            assert(pow2(k) >= 0x100);
            assert(significand * pow2(k) >= 0x8000_0000) by (nonlinear_arith)
                requires
                    significand >= 0x80_0000,
                    pow2(k) >= 0x100,
            ;
        }
        return if negative {
            i32::MIN
        } else {
            i32::MAX
        };
    }
    let magnitude: u32 = if e < 150 {
        let unit = power_of_two(150 - e);
        significand / unit
    } else {
        let scale = power_of_two(e - 150);
        proof {
            lemma2_to64();
            if e - 150 < 7 {
                lemma_pow2_strictly_increases((e - 150) as nat, 7);
            }
            assert(significand * scale < 0x8000_0000) by (nonlinear_arith)
                requires
                    significand < 0x100_0000,
                    scale <= 0x80,
            ;
        }
        significand * scale
    };
    if negative {
        0 - (magnitude as i32)
    } else {
        magnitude as i32
    }
}

/// Converts an integer to the bit pattern of the nearest float, ties going to
/// the even significand.
pub fn int_to_float_bits(v: i32) -> (bits: u32)
    ensures
        bits == int_as_float(v as int),
{
    if v == 0 {
        return 0;
    }
    let negative = v < 0;
    let n: u32 = if negative {
        (0 - (v as i64)) as u32
    } else {
        v as u32
    };
    let mut p: u32 = 0;
    let mut top: u32 = n;
    while top > 1
        invariant
            top >= 1,
            1 <= n <= 0x8000_0000,
            p <= 31,
            bit_length(n as nat) == bit_length(top as nat) + p,
        decreases top,
    {
        proof {
            lemma2_to64();
            lemma_bit_length_limit(n as nat, 32);
            assert(bit_length(top as nat) == 1 + bit_length((top / 2) as nat));
            assert(bit_length((top / 2) as nat) >= 1) by {
                lemma_bit_length_bounds((top / 2) as nat);
            }
        }
        top = top / 2;
        p = p + 1;
    }
    proof {
        assert(bit_length(1) == 1 + bit_length(0));
        assert(p == bit_length(n as nat) - 1);
        lemma_bit_length_bounds(n as nat);
        lemma2_to64();
    }
    let magnitude: u32 = if p <= 23 {
        let scale = power_of_two(23 - p);
        proof {
            lemma_pow2_unfold((p + 1) as nat);
            lemma_pow2_adds((p + 1) as nat, (23 - p) as nat);
            assert(n * scale < 0x100_0000) by (nonlinear_arith)
                requires
                    n < pow2((p + 1) as nat),
                    scale == pow2((23 - p) as nat),
                    pow2((p + 1) as nat) * pow2((23 - p) as nat) == 0x100_0000,
                    scale >= 1,
            ;
            lemma_pow2_adds(p as nat, (23 - p) as nat);
            assert(n * scale >= 0x80_0000) by (nonlinear_arith)
                requires
                    n >= pow2(p as nat),
                    scale == pow2((23 - p) as nat),
                    pow2(p as nat) * pow2((23 - p) as nat) == 0x80_0000,
            ;
        }
        (127 + p) * FRACTION_SPAN + (n * scale - FRACTION_SPAN)
    } else {
        let unit = power_of_two(p - 23);
        let kept = n / unit;
        let rest = n % unit;
        proof {
            lemma_pow2_adds(23, (p - 23) as nat);
            lemma_pow2_adds(24, (p - 23) as nat);
            lemma_pow2_unfold((p + 1) as nat);
            assert(0x80_0000 <= kept < 0x100_0000) by (nonlinear_arith)
                requires
                    kept == n / unit,
                    unit >= 1,
                    n >= 0x80_0000 * unit,
                    n < 0x100_0000 * unit,
            ;
        }
        let up = 2 * (rest as u64) > unit as u64 || (2 * (rest as u64) == unit as u64 && kept % 2
            == 1);
        let bump: u32 = if up {
            1
        } else {
            0
        };
        (127 + p) * FRACTION_SPAN + (kept - FRACTION_SPAN) + bump
    };
    if negative {
        SIGN_BIT + magnitude
    } else {
        magnitude
    }
}

/// A bit pattern put together from a sign, an exponent and a fraction gives
/// those three back.
pub proof fn lemma_fields_of_parts(sign: int, e: int, fraction: int)
    requires
        0 <= sign <= 1,
        0 <= e < 0x100,
        0 <= fraction < 0x80_0000,
    ensures
        0 <= sign * 0x8000_0000 + e * 0x80_0000 + fraction <= u32::MAX,
        exponent_field((sign * 0x8000_0000 + e * 0x80_0000 + fraction) as u32) == e,
        fraction_field((sign * 0x8000_0000 + e * 0x80_0000 + fraction) as u32) == fraction,
        sign_set((sign * 0x8000_0000 + e * 0x80_0000 + fraction) as u32) == (sign == 1),
{
}

/// An integer of at most 24 binary digits is represented exactly: converting
/// it to a float and truncating the float gives the integer back. So does
/// 2^24, the first integer of 25 digits.
pub proof fn lemma_small_int_round_trip(v: int)
    requires
        -0x100_0000 <= v <= 0x100_0000,
    ensures
        0 <= int_as_float(v) <= u32::MAX,
        truncated(int_as_float(v) as u32) == v,
{
    lemma2_to64();
    if v == 0 {
        lemma_fields_of_parts(0, 0, 0);
    } else if -0x100_0000 < v < 0x100_0000 {
        lemma_bit_length_limit(magnitude(v), 24);
        lemma_conversion_is_nearest(v);
    } else {
        let sign: int = if v < 0 {
            1
        } else {
            0
        };
        let n: nat = 0x100_0000;
        lemma_bit_length_bounds(n);
        lemma_bit_length_limit(n, 25);
        assert(bit_length(n) == 25) by {
            if bit_length(n) <= 24 {
                lemma_pow2_strictly_increases(bit_length(n), 25);
                if bit_length(n) < 24 {
                    lemma_pow2_strictly_increases(bit_length(n), 24);
                }
            }
        }
        assert(pow2(1) == 2);
        assert(magnitude_bits(n) == 151 * 0x80_0000);
        lemma_fields_of_parts(sign, 151, 0);
        let bits = (sign * 0x8000_0000 + 151 * 0x80_0000) as u32;
        assert(int_as_float(v) == bits);
        assert(whole_magnitude(bits) == 0x80_0000 * pow2(1));
    }
}

/// The magnitude of an integer.
pub open spec fn magnitude(v: int) -> nat {
    if v < 0 {
        (-v) as nat
    } else {
        v as nat
    }
}

/// The float that a 32-bit integer is converted to is a number with the
/// integer's sign, and it is the integer rounded to 24 binary digits: for an
/// integer of more digits it is off by at most half the weight of the last
/// digit kept.
pub proof fn lemma_conversion_is_nearest(v: int)
    requires
        i32::MIN <= v <= i32::MAX,
        v != 0,
    ensures
        0 <= int_as_float(v) <= u32::MAX,
        !is_nan(int_as_float(v) as u32),
        sign_set(int_as_float(v) as u32) == (v < 0),
        bit_length(magnitude(v)) <= 24 ==> whole_magnitude(int_as_float(v) as u32) == magnitude(v),
        bit_length(magnitude(v)) > 24 ==> {
            let unit = pow2((bit_length(magnitude(v)) - 24) as nat);
            &&& 2 * (whole_magnitude(int_as_float(v) as u32) - magnitude(v)) <= unit
            &&& 2 * (magnitude(v) - whole_magnitude(int_as_float(v) as u32)) <= unit
        },
{
    lemma2_to64();
    let sign: int = if v < 0 {
        1
    } else {
        0
    };
    let n = magnitude(v);
    lemma_bit_length_bounds(n);
    lemma_bit_length_limit(n, 32);
    let p = (bit_length(n) - 1) as nat;
    if p <= 23 {
        let scale = pow2((23 - p) as nat);
        lemma_pow2_pos((23 - p) as nat);
        lemma_pow2_unfold(p + 1);
        lemma_pow2_adds(p + 1, (23 - p) as nat);
        lemma_pow2_adds(p, (23 - p) as nat);
        assert(0x80_0000 <= n * scale < 0x100_0000) by (nonlinear_arith)
            requires
                pow2(p) <= n < pow2(p + 1),
                pow2(p + 1) * scale == 0x100_0000,
                pow2(p) * scale == 0x80_0000,
                scale >= 1,
        ;
        let fraction = n * scale - 0x80_0000;
        lemma_fields_of_parts(sign, 127 + p as int, fraction as int);
        let bits = (sign * 0x8000_0000 + (127 + p) * 0x80_0000 + fraction) as u32;
        assert(int_as_float(v) == bits);
        if p < 23 {
            assert((n * scale) as int / (scale as int) == n) by (nonlinear_arith)
                requires
                    scale >= 1,
            ;
        } else {
            assert(n * scale == n) by (nonlinear_arith)
                requires
                    scale == 1,
            ;
        }
        assert(whole_magnitude(bits) == n);
    } else {
        let k = (p - 23) as nat;
        let unit = pow2(k) as int;
        lemma_pow2_pos(k);
        lemma_pow2_adds(23, k);
        lemma_pow2_adds(24, k);
        lemma_pow2_unfold(p + 1);
        lemma_pow2_unfold(k + 1);
        let kept = n as int / unit;
        let rest = n as int % unit;
        lemma_fundamental_div_mod(n as int, unit);
        assert(n == unit * kept + rest);
        assert(0 <= rest < unit);
        assert(0x80_0000 <= kept < 0x100_0000) by (nonlinear_arith)
            requires
                n == unit * kept + rest,
                0 <= rest < unit,
                n >= 0x80_0000 * unit,
                n < 0x100_0000 * unit,
        ;
        let up = 2 * rest > unit || (2 * rest == unit && kept % 2 == 1);
        let bump: int = if up {
            1
        } else {
            0
        };
        let rounded = kept + bump;
        assert(magnitude_bits(n) == (127 + p) * 0x80_0000 + (kept - 0x80_0000) + bump);
        if rounded < 0x100_0000 {
            lemma_fields_of_parts(sign, 127 + p as int, rounded - 0x80_0000);
            let bits = (sign * 0x8000_0000 + (127 + p) * 0x80_0000 + (rounded - 0x80_0000)) as u32;
            assert(int_as_float(v) == bits);
            assert(exponent_field(bits) - 150 == k);
            assert(whole_magnitude(bits) == rounded * pow2(k));
        } else {
            lemma_fields_of_parts(sign, 128 + p as int, 0);
            let bits = (sign * 0x8000_0000 + (128 + p) * 0x80_0000) as u32;
            assert(int_as_float(v) == bits);
            assert(exponent_field(bits) - 150 == k + 1);
            assert(whole_magnitude(bits) == 0x80_0000 * pow2(k + 1));
            assert(0x80_0000 * pow2(k + 1) == rounded * pow2(k)) by (nonlinear_arith)
                requires
                    rounded == 0x100_0000,
                    pow2(k + 1) == 2 * pow2(k),
            ;
        }
        let whole = whole_magnitude(int_as_float(v) as u32);
        assert(whole == rounded * unit);
        assert(whole - n == bump * unit - rest) by (nonlinear_arith)
            requires
                whole == (kept + bump) * unit,
                n == unit * kept + rest,
        ;
    }
}

} // verus!
