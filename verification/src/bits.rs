//! Bit-level helpers on bytes, stated arithmetically.

use vstd::prelude::*;

verus! {

/// 2 raised to `i`, for bit positions 0..8.
pub open spec fn pow2_8(i: u8) -> u8 {
    if i == 0 {
        1
    } else if i == 1 {
        2
    } else if i == 2 {
        4
    } else if i == 3 {
        8
    } else if i == 4 {
        16
    } else if i == 5 {
        32
    } else if i == 6 {
        64
    } else {
        128
    }
}

/// Bit `i` (0..8) of `v`: 1 if set, 0 if clear.
pub open spec fn bit_value(v: u8, i: u8) -> u8 {
    ((v / pow2_8(i)) % 2) as u8
}

/// Whether bit `i` of `v` is set.
pub open spec fn bit_set(v: u8, i: u8) -> bool {
    bit_value(v, i) == 1
}

/// `v` with bit `i` cleared.
pub open spec fn clear_bit(v: u8, i: u8) -> u8 {
    (v - bit_value(v, i) * pow2_8(i)) as u8
}

/// `v` with bit `i` set.
pub open spec fn set_bit(v: u8, i: u8) -> u8 {
    (v + (1 - bit_value(v, i)) * pow2_8(i)) as u8
}

/// The mask with only bit `i` set.
pub fn bit_mask(i: u8) -> (m: u8)
    requires
        i < 8,
    ensures
        m == pow2_8(i),
{
    if i == 0 {
        1
    } else if i == 1 {
        2
    } else if i == 2 {
        4
    } else if i == 3 {
        8
    } else if i == 4 {
        16
    } else if i == 5 {
        32
    } else if i == 6 {
        64
    } else {
        128
    }
}

/// Whether bit `i` of `v` is set.
pub fn test_bit(v: u8, i: u8) -> (b: bool)
    requires
        i < 8,
    ensures
        b == bit_set(v, i),
{
    (v / bit_mask(i)) % 2 == 1
}

/// `v` with bit `i` cleared.
pub fn with_bit_cleared(v: u8, i: u8) -> (r: u8)
    requires
        i < 8,
    ensures
        r == clear_bit(v, i),
        bit_value(r, i) == 0,
{
    let m = bit_mask(i);
    let r = if (v / m) % 2 == 1 {
        assert(bit_value(v, i) == 1);
        assert(bit_value(v, i) * pow2_8(i) == m);
        v - m
    } else {
        assert(bit_value(v, i) == 0);
        assert(bit_value(v, i) * pow2_8(i) == 0);
        v
    };
    assert(i < 8 ==> bit_value(r, i) == 0) by {
        lemma_clear_then_test(v, i);
    }
    r
}

/// `v` with bit `i` set.
pub fn with_bit_set(v: u8, i: u8) -> (r: u8)
    requires
        i < 8,
    ensures
        r == set_bit(v, i),
        bit_value(r, i) == 1,
{
    let m = bit_mask(i);
    let r = if (v / m) % 2 == 1 {
        assert((1 - bit_value(v, i)) * pow2_8(i) == 0);
        v
    } else {
        assert(bit_value(v, i) == 0);
        assert((1 - bit_value(v, i)) * pow2_8(i) == m);
        v + m
    };
    assert(i < 8 ==> bit_value(r, i) == 1) by {
        lemma_set_then_test(v, i);
    }
    r
}

/// Clearing a bit leaves it clear.
pub proof fn lemma_clear_then_test(v: u8, i: u8)
    requires
        i < 8,
    ensures
        bit_value(clear_bit(v, i), i) == 0,
{
    let p = pow2_8(i) as int;
    let vi = v as int;
    let q = vi / p;
    assert(vi == q * p + vi % p) by (nonlinear_arith)
        requires
            p > 0,
            q == vi / p,
    ;
    if q % 2 == 1 {
        assert((vi - p) / p == q - 1) by (nonlinear_arith)
            requires
                vi == q * p + vi % p,
                p > 0,
                0 <= vi % p < p,
        ;
    }
}

/// Setting a bit leaves it set.
pub proof fn lemma_set_then_test(v: u8, i: u8)
    requires
        i < 8,
    ensures
        bit_value(set_bit(v, i), i) == 1,
{
    let p = pow2_8(i) as int;
    let vi = v as int;
    let q = vi / p;
    assert(vi == q * p + vi % p) by (nonlinear_arith)
        requires
            p > 0,
            q == vi / p,
    ;
    if q % 2 == 0 {
        assert((vi + p) / p == q + 1) by (nonlinear_arith)
            requires
                vi == q * p + vi % p,
                p > 0,
                0 <= vi % p < p,
        ;
    }
}

/// 2 raised to `b`.
pub open spec fn pow2(b: nat) -> nat
    decreases b,
{
    if b == 0 {
        1
    } else {
        2 * pow2((b - 1) as nat)
    }
}

/// `x` shifted left by `s` bits, when the result fits.
pub fn shl_u32(x: u32, s: u32) -> (r: u32)
    requires
        x * pow2(s as nat) <= u32::MAX,
    ensures
        r == x * pow2(s as nat),
{
    let mut r = x;
    let mut k: u32 = 0;
    assert(pow2(0) == 1);
    while k < s
        invariant
            k <= s,
            r == x * pow2(k as nat),
            x * pow2(s as nat) <= u32::MAX,
        decreases s - k,
    {
        proof {
            assert(pow2(k as nat + 1) == 2 * pow2(k as nat));
            lemma_pow2_le(k as nat + 1, s as nat);
            assert(x * pow2(k as nat + 1) == 2 * (x * pow2(k as nat))) by (nonlinear_arith)
                requires pow2(k as nat + 1) == 2 * pow2(k as nat);
            assert(x * pow2(k as nat + 1) <= x * pow2(s as nat)) by (nonlinear_arith)
                requires pow2(k as nat + 1) <= pow2(s as nat);
        }
        r = r * 2;
        k = k + 1;
    }
    r
}

/// Setting or clearing bit `i` leaves every other bit as it was.
pub proof fn lemma_other_bits_kept(v: u8, i: u8, j: u8)
    requires
        i < 8,
        j < 8,
        i != j,
    ensures
        bit_value(set_bit(v, i), j) == bit_value(v, j),
        bit_value(clear_bit(v, i), j) == bit_value(v, j),
{
    assert(bit_value(set_bit(v, i), j) == bit_value(v, j)) by (bit_vector)
        requires
            i < 8,
            j < 8,
            i != j,
    ;
    assert(bit_value(clear_bit(v, i), j) == bit_value(v, j)) by (bit_vector)
        requires
            i < 8,
            j < 8,
            i != j,
    ;
}

/// `pow2` grows with its exponent.
pub proof fn lemma_pow2_le(a: nat, b: nat)
    requires
        a <= b,
    ensures
        pow2(a) <= pow2(b),
    decreases b - a,
{
    if a < b {
        lemma_pow2_le(a, (b - 1) as nat);
    }
}

/// The byte at index `i` of `s`, or `default` past its end.
pub open spec fn byte_or(s: Seq<u8>, i: int, default: u8) -> u8 {
    if 0 <= i < s.len() {
        s[i]
    } else {
        default
    }
}

/// Reads the byte at index `i`, or `default` past the end.
pub fn get_byte_or(v: &Vec<u8>, i: u64, default: u8) -> (b: u8)
    ensures
        b == byte_or(v@, i as int, default),
{
    if i < v.len() as u64 {
        v[i as usize]
    } else {
        default
    }
}

} // verus!
