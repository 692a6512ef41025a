//! Products of two 128-bit numbers, held as two 128-bit halves.

use vstd::prelude::*;

verus! {

/// Two to the power 64.
pub open spec fn pow2_64() -> int {
    0x1_0000_0000_0000_0000
}

/// Two to the power 128.
pub open spec fn pow2_128() -> int {
    0x1_0000_0000_0000_0000_0000_0000_0000_0000int
}

/// Two to the power 192.
pub open spec fn pow2_192() -> int {
    0x1_0000_0000_0000_0000_0000_0000_0000_0000_0000_0000_0000_0000int
}

const BASE: u128 = 0x1_0000_0000_0000_0000;

/// The product of two numbers below two to the power 64 fits in 128 bits.
proof fn lemma_half_product(x: u128, y: u128)
    requires
        x < pow2_64(),
        y < pow2_64(),
    ensures
        x * y <= 0xFFFF_FFFF_FFFF_FFFE_0000_0000_0000_0001,
{
    assert(x * y <= 0xFFFF_FFFF_FFFF_FFFF * 0xFFFF_FFFF_FFFF_FFFF) by (nonlinear_arith)
        requires
            0 <= x <= 0xFFFF_FFFF_FFFF_FFFF,
            0 <= y <= 0xFFFF_FFFF_FFFF_FFFF,
    ;
}

/// The product of two numbers, written over their halves.
proof fn lemma_split_product(a: int, b: int, a1: int, a0: int, b1: int, b0: int, base: int)
    requires
        a == a1 * base + a0,
        b == b1 * base + b0,
    ensures
        a * b == (a1 * b1) * (base * base) + (a0 * b1 + a1 * b0) * base + a0 * b0,
{
    let x = a1 * base;
    let y = b1 * base;
    assert((x + a0) * (y + b0) == x * y + x * b0 + a0 * y + a0 * b0) by (nonlinear_arith);
    assert(x * y == (a1 * b1) * (base * base)) by (nonlinear_arith)
        requires
            x == a1 * base,
            y == b1 * base,
    ;
    assert(x * b0 == (a1 * b0) * base) by (nonlinear_arith)
        requires
            x == a1 * base,
    ;
    assert(a0 * y == (a0 * b1) * base) by (nonlinear_arith)
        requires
            y == b1 * base,
    ;
    assert((a0 * b1) * base + (a1 * b0) * base == (a0 * b1 + a1 * b0) * base)
        by (nonlinear_arith);
}

/// The full product of `a` and `b`: its upper and its lower 128 bits.
pub fn mul_wide(a: u128, b: u128) -> (product: (u128, u128))
    ensures
        product.0 * pow2_128() + product.1 == a * b,
{
    let a1: u128 = a / BASE;
    let a0: u128 = a % BASE;
    let b1: u128 = b / BASE;
    let b0: u128 = b % BASE;
    proof {
        lemma_half_product(a0, b0);
        lemma_half_product(a0, b1);
        lemma_half_product(a1, b0);
        lemma_half_product(a1, b1);
    }
    let p00: u128 = a0 * b0;
    let p01: u128 = a0 * b1;
    let p10: u128 = a1 * b0;
    let p11: u128 = a1 * b1;
    let t: u128 = p00 / BASE + p01 % BASE + p10 % BASE;
    let low: u128 = p00 % BASE + (t % BASE) * BASE;
    let high: u128 = p11 + p01 / BASE + p10 / BASE + t / BASE;
    proof {
        lemma_split_product(a as int, b as int, a1 as int, a0 as int, b1 as int, b0 as int, BASE as int);
        assert(BASE * BASE == pow2_128());
    }
    (high, low)
}

} // verus!
