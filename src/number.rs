use vstd::arithmetic::power2::{
    lemma2_to64, lemma2_to64_rest, lemma_pow2_adds, lemma_pow2_pos, lemma_pow2_strictly_increases,
    lemma_pow2_unfold, pow2,
};
use vstd::prelude::*;

use crate::ser::{MAX_SAFE_INTEGER, is_safe_integer};

verus! {

/// 2^52: the weight of the lowest exponent bit of a double.
pub const TWO_POW_52: u64 = 4503599627370496;

/// The sign bit of a double; alone it is the pattern of negative zero.
pub const SIGN_BIT: u64 = 9223372036854775808;

/// The one pattern that stands for every NaN.
pub const CANONICAL_NAN: u64 = 9221120237041090560;

/// The offset that moves the key of a number outside the safe range below every
/// bit pattern.
pub const OUT_OF_RANGE_OFFSET: i128 = 36893488147419103232;

/// The exponent of the highest set bit of a positive integer.
pub open spec fn log2_floor(m: nat) -> nat
    decreases m,
{
    if m < 2 {
        0
    } else {
        1 + log2_floor(m / 2)
    }
}

/// The bit pattern of the double equal to an integer of the safe range.
pub open spec fn int_double_bits(n: int) -> int {
    if n == 0 {
        0
    } else {
        let m = if n < 0 {
            -n
        } else {
            n
        };
        let e = log2_floor(m as nat);
        (if n < 0 {
            SIGN_BIT as int
        } else {
            0
        }) + (1023 + e) * TWO_POW_52 + (m - pow2(e)) * pow2((52 - e) as nat)
    }
}

/// Whether a double's bit pattern is a NaN: all exponent bits set, some mantissa bit set.
pub open spec fn is_nan_bits(b: u64) -> bool {
    (b / TWO_POW_52) % 2048 == 2047 && b % TWO_POW_52 != 0
}

/// A double's pattern with negative zero taken as zero and every NaN as one NaN,
/// as the host's map compares numbers.
pub open spec fn canonical_float_bits(b: u64) -> int {
    if b == SIGN_BIT {
        0
    } else if is_nan_bits(b) {
        CANONICAL_NAN as int
    } else {
        b as int
    }
}

/// The map key of an integer number: the pattern of the double it equals; an
/// integer outside the safe range, which no conversion produces, keeps a key of
/// its own below every pattern.
pub open spec fn int_number_key(n: i64) -> int {
    if is_safe_integer(n as int) {
        int_double_bits(n as int)
    } else {
        n as int - OUT_OF_RANGE_OFFSET
    }
}

/// `log2_floor` is the exponent of the power of two at or just below `m`.
proof fn lemma_log2_floor_exact(m: nat, e: nat)
    requires
        pow2(e) <= m < pow2(e + 1),
    ensures
        log2_floor(m) == e,
    decreases e,
{
    lemma_pow2_unfold(e + 1);
    if e == 0 {
        lemma2_to64();
    } else {
        lemma_pow2_unfold(e);
        lemma_pow2_pos((e - 1) as nat);
        lemma_log2_floor_exact(m / 2, (e - 1) as nat);
    }
}

/// Computes the map key of an integer number.
pub fn integer_key(n: i64) -> (r: i128)
    ensures
        r == int_number_key(n),
{
    if n < -MAX_SAFE_INTEGER || n > MAX_SAFE_INTEGER {
        return n as i128 - OUT_OF_RANGE_OFFSET;
    }
    if n == 0 {
        return 0;
    }
    let m: u64 = if n < 0 {
        (-n) as u64
    } else {
        n as u64
    };
    proof {
        lemma2_to64();
    }
    let mut p: u64 = 1;
    let mut e: u64 = 0;
    while p <= m / 2
        invariant
            1 <= m <= MAX_SAFE_INTEGER,
            p == pow2(e as nat),
            1 <= p <= m,
            e <= 52,
        decreases m - p,
    {
        proof {
            lemma_pow2_unfold((e + 1) as nat);
            if e + 1 > 52 {
                lemma_pow2_strictly_increases(52, (e + 1) as nat);
                lemma_pow2_52_53();
            }
        }
        p = p * 2;
        e = e + 1;
    }
    proof {
        lemma_pow2_unfold((e + 1) as nat);
        lemma_log2_floor_exact(m as nat, e as nat);
    }
    let mut q: u64 = 1;
    let mut k: u64 = 0;
    while k < 52 - e
        invariant
            e <= 52,
            k <= 52 - e,
            q == pow2(k as nat),
            1 <= q <= TWO_POW_52,
        decreases 52 - e - k,
    {
        proof {
            lemma_pow2_52_53();
            lemma_pow2_unfold((k + 1) as nat);
            if k + 1 < 52 {
                lemma_pow2_strictly_increases((k + 1) as nat, 52);
            }
        }
        q = q * 2;
        k = k + 1;
    }
    proof {
        lemma_pow2_52_53();
        lemma_pow2_adds(e as nat, k as nat);
        assert(e + k == 52);
        assert((m - p) * q < p * q) by (nonlinear_arith)
            requires
                m - p < p,
                q > 0,
        ;
    }
    let mantissa: u64 = (m - p) * q;
    let exponent: u64 = (1023 + e) * TWO_POW_52;
    let sign: u64 = if n < 0 {
        SIGN_BIT
    } else {
        0
    };
    (sign + exponent + mantissa) as i128
}

/// The two powers of two that bound a safe integer's mantissa.
proof fn lemma_pow2_52_53()
    ensures
        pow2(52) == TWO_POW_52,
        pow2(53) == 2 * TWO_POW_52,
{
    lemma2_to64();
    lemma2_to64_rest();
}

/// Computes the map key of a number given by a double's bit pattern.
pub fn float_key(b: u64) -> (r: i128)
    ensures
        r == canonical_float_bits(b),
{
    if b == SIGN_BIT {
        0
    } else if (b / TWO_POW_52) % 2048 == 2047 && b % TWO_POW_52 != 0 {
        CANONICAL_NAN as i128
    } else {
        b as i128
    }
}

} // verus!
