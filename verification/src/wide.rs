//! Arithmetic beyond 128 bits, and integer square roots.
use vstd::prelude::*;

verus! {

/// 2^64.
pub const LIMB: u128 = 0x1_0000_0000_0000_0000;

/// An unsigned number of 256 bits.
#[derive(Clone, Copy, Debug)]
pub struct U256 {
    pub hi: u128,
    pub lo: u128,
}

impl U256 {
    /// The number itself.
    pub open spec fn val(self) -> int {
        self.hi * 0x1_0000_0000_0000_0000_0000_0000_0000_0000 + self.lo
    }

    /// `a * b`.
    pub fn product(a: u128, b: u128) -> (r: U256)
        ensures
            r.val() == a * b,
    {
        let a0: u128 = a % LIMB;
        let a1: u128 = a / LIMB;
        let b0: u128 = b % LIMB;
        let b1: u128 = b / LIMB;
        proof {
            lemma_limb_product(a0 as int, b0 as int);
            lemma_limb_product(a0 as int, b1 as int);
            lemma_limb_product(a1 as int, b0 as int);
            lemma_limb_product(a1 as int, b1 as int);
        }
        let p00: u128 = a0 * b0;
        let p01: u128 = a0 * b1;
        let p10: u128 = a1 * b0;
        let p11: u128 = a1 * b1;
        let mid: u128 = p01 + p00 / LIMB;
        let mid2: u128 = p10 + mid % LIMB;
        let hi: u128 = p11 + (mid / LIMB + mid2 / LIMB);
        let lo: u128 = (mid2 % LIMB) * LIMB + p00 % LIMB;
        proof {
            assert(a * b == p11 * 0x1_0000_0000_0000_0000_0000_0000_0000_0000 + (p10 + p01) * LIMB + p00) by (nonlinear_arith)
                requires
                    a == a1 * LIMB + a0,
                    b == b1 * LIMB + b0,
                    p00 == a0 * b0,
                    p01 == a0 * b1,
                    p10 == a1 * b0,
                    p11 == a1 * b1,
            ;
        }
        U256 { hi, lo }
    }

    /// `self + b`.
    pub fn plus(self, b: U256) -> (r: U256)
        requires
            self.hi + b.hi < u128::MAX,
        ensures
            r.val() == self.val() + b.val(),
    {
        let room: u128 = u128::MAX - self.lo;
        if b.lo <= room {
            U256 { hi: self.hi + b.hi, lo: self.lo + b.lo }
        } else {
            U256 { hi: self.hi + b.hi + 1, lo: b.lo - room - 1 }
        }
    }

    /// `self <= b`.
    pub fn at_most(self, b: U256) -> (r: bool)
        ensures
            r == (self.val() <= b.val()),
    {
        self.hi < b.hi || (self.hi == b.hi && self.lo <= b.lo)
    }
}

/// The product of two 64-bit numbers leaves room for two more of them.
proof fn lemma_limb_product(a: int, b: int)
    requires
        0 <= a < LIMB,
        0 <= b < LIMB,
    ensures
        0 <= a * b <= (LIMB - 1) * (LIMB - 1),
{
    assert(0 <= a * b <= (LIMB - 1) * (LIMB - 1)) by (nonlinear_arith)
        requires
            0 <= a <= LIMB - 1,
            0 <= b <= LIMB - 1,
    ;
}

/// `r` is the square root of `x`, rounded down.
pub open spec fn is_isqrt(x: int, r: int) -> bool {
    r >= 0 && r * r <= x < (r + 1) * (r + 1)
}

/// The square root of `x`, rounded down.
pub fn isqrt(x: u128) -> (r: u64)
    ensures
        is_isqrt(x as int, r as int),
{
    let mut lo: u128 = 0;
    let mut hi: u128 = LIMB;
    assert(LIMB * LIMB > u128::MAX);
    while hi - lo > 1
        invariant
            lo < hi <= LIMB,
            lo * lo <= x < hi * hi,
        decreases hi - lo,
    {
        let mid: u128 = lo + (hi - lo) / 2;
        proof {
            lemma_limb_product(mid as int, mid as int);
        }
        if mid * mid <= x {
            lo = mid;
        } else {
            hi = mid;
        }
    }
    lo as u64
}

/// A number has one square root.
pub proof fn lemma_isqrt_unique(x: int, a: int, b: int)
    requires
        is_isqrt(x, a),
        is_isqrt(x, b),
    ensures
        a == b,
{
    assert(a == b) by (nonlinear_arith)
        requires
            a >= 0,
            b >= 0,
            a * a <= x < (a + 1) * (a + 1),
            b * b <= x < (b + 1) * (b + 1),
    ;
}

} // verus!
