//! Powers of two and the masking arithmetic of free-running ring indices.

use vstd::arithmetic::power2::is_pow2;
use vstd::prelude::*;

verus! {

/// The number of values of a free-running `u32` index: indices count modulo this number.
pub open spec fn index_range() -> int {
    0x1_0000_0000
}

/// Indices are `u32` values: they run from 0 to `u32::MAX` and start over.
pub proof fn law_indices_are_u32()
    ensures
        index_range() == u32::MAX + 1,
{
}

/// Whether `n` is a non-zero power of two.
pub fn is_power_of_two(n: u32) -> (r: bool)
    ensures
        r == is_pow2(n as int),
{
    if n == 0 {
        proof {
            reveal(is_pow2);
        }
        return false;
    }
    let mut m: u32 = n;
    while m % 2 == 0
        invariant
            0 < m <= n,
            is_pow2(m as int) == is_pow2(n as int),
        decreases m,
    {
        proof {
            reveal(is_pow2);
        }
        m = m / 2;
    }
    proof {
        reveal(is_pow2);
    }
    m == 1
}

/// Masking with a power of two less one takes the remainder of the division by that power.
pub proof fn lemma_mask_is_remainder(x: u32, size: u32)
    requires
        is_pow2(size as int),
    ensures
        x & ((size - 1) as u32) == x as int % size as int,
    decreases size,
{
    reveal(is_pow2);
    if size == 1 {
        assert(x & 0 == 0) by (bit_vector);
    } else {
        let half: u32 = (size / 2) as u32;
        let y: u32 = (x / 2) as u32;
        lemma_mask_is_remainder(y, half);
        let m: u32 = (size - 1) as u32;
        let h: u32 = (half - 1) as u32;
        assert(size == 2 * half);
        assert(m == 2 * h + 1);
        assert(x & m == 2 * (y & h) + x % 2) by (bit_vector)
            requires
                y == x / 2,
                m == 2 * h + 1,
        ;
        assert(x as int % (2 * half as int) == 2 * ((x as int / 2) % half as int) + x as int % 2)
            by {
            vstd::arithmetic::div_mod::lemma_mod_breakdown(x as int, 2, half as int);
        }
    }
}

/// A power of two that fits in a `u32` divides the range of the index, so that taking the
/// remainder first by the range and then by the power is the same as taking it by the power.
pub proof fn lemma_index_range_multiple(x: int, size: u32)
    requires
        is_pow2(size as int),
    ensures
        size > 0,
        index_range() % size as int == 0,
        (x % index_range()) % size as int == x % size as int,
{
    lemma_range_is_power();
    lemma_divides_range(size as int, index_range());
    let q = index_range() / size as int;
    let s = size as int;
    vstd::arithmetic::div_mod::lemma_fundamental_div_mod(index_range(), s);
    assert(index_range() == s * q);
    assert(q > 0) by (nonlinear_arith)
        requires
            0x1_0000_0000 == s * q,
            s > 0,
    ;
    vstd::arithmetic::div_mod::lemma_mod_mod(x, s, q);
}

proof fn lemma_range_is_power()
    ensures
        is_pow2(index_range()),
{
    vstd::arithmetic::power2::lemma2_to64();
    vstd::arithmetic::power2::lemma_pow2(32);
    assert(vstd::arithmetic::power::pow(2, 32) == index_range());
    vstd::arithmetic::power2::is_pow2_equiv(index_range());
}

proof fn lemma_divides_range(size: int, range: int)
    requires
        is_pow2(size),
        is_pow2(range),
        size <= range,
    ensures
        size > 0,
        range % size == 0,
    decreases range,
{
    reveal(is_pow2);
    if size == 1 {
    } else {
        lemma_divides_range(size / 2, range / 2);
        let h = size / 2;
        let q = (range / 2) / h;
        vstd::arithmetic::div_mod::lemma_fundamental_div_mod(range / 2, h);
        assert(range == size * q) by (nonlinear_arith)
            requires
                range / 2 == h * q,
                range == 2 * (range / 2),
                size == 2 * h,
        ;
        vstd::arithmetic::div_mod::lemma_mod_multiples_basic(q, size);
        assert(size * q == q * size) by (nonlinear_arith);
    }
}

/// Sums and differences of congruent numbers are congruent.
pub proof fn lemma_congruent(x: int, y: int, z: int, w: int, m: int)
    requires
        m > 0,
        x % m == y % m,
        z % m == w % m,
    ensures
        (x + z) % m == (y + w) % m,
        (x - z) % m == (y - w) % m,
{
    vstd::arithmetic::div_mod::lemma_add_mod_noop(x, z, m);
    vstd::arithmetic::div_mod::lemma_add_mod_noop(y, w, m);
    vstd::arithmetic::div_mod::lemma_sub_mod_noop(x, z, m);
    vstd::arithmetic::div_mod::lemma_sub_mod_noop(y, w, m);
}

/// The remainder of a number from `-m` up to `m` is that number, or that number plus `m` where it
/// is negative.
pub proof fn lemma_near_remainder(x: int, m: int)
    requires
        -m <= x < m,
    ensures
        0 <= x ==> x % m == x,
        x < 0 ==> x % m == x + m,
{
    if x >= 0 {
        vstd::arithmetic::div_mod::lemma_small_mod(x as nat, m as nat);
    } else {
        vstd::arithmetic::div_mod::lemma_mod_add_multiples_vanish(x, m);
        vstd::arithmetic::div_mod::lemma_small_mod((x + m) as nat, m as nat);
    }
}

} // verus!
