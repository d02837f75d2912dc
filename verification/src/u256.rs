use vstd::arithmetic::div_mod::{
    lemma_fundamental_div_mod, lemma_fundamental_div_mod_converse, lemma_mod_bound,
    lemma_multiply_divide_lt,
};
use vstd::arithmetic::mul::lemma_mul_upper_bound;
use vstd::prelude::*;

verus! {

/// One more than the largest value a `U256` can hold.
pub open spec fn pow2_256() -> nat {
    0x10000000000000000000000000000000000000000000000000000000000000000nat
}

const TWO64: u128 = 0x10000000000000000;

/// A 256-bit unsigned integer, four 64-bit limbs, least significant first.
#[derive(Clone, Copy, Debug, PartialEq, Eq, Structural)]
pub struct U256 {
    pub l0: u64,
    pub l1: u64,
    pub l2: u64,
    pub l3: u64,
}

impl U256 {
    /// The number this value denotes.
    pub open spec fn val(self) -> nat {
        (self.l0 + self.l1 * 0x10000000000000000int + self.l2 * 0x100000000000000000000000000000000int
            + self.l3 * 0x1000000000000000000000000000000000000000000000000int) as nat
    }

    pub fn zero() -> (r: U256)
        ensures
            r.val() == 0,
    {
        U256 { l0: 0, l1: 0, l2: 0, l3: 0 }
    }

    pub fn from_u64(x: u64) -> (r: U256)
        ensures
            r.val() == x,
    {
        U256 { l0: x, l1: 0, l2: 0, l3: 0 }
    }

    /// Limb-lexicographic comparison, equivalent to comparing the values.
    pub fn le(&self, other: &U256) -> (r: bool)
        ensures
            r == (self.val() <= other.val()),
    {
        proof {
            lemma_u256_cmp(*self, *other);
            lemma_u256_cmp(*other, *self);
        }
        if self.l3 != other.l3 {
            self.l3 < other.l3
        } else if self.l2 != other.l2 {
            self.l2 < other.l2
        } else if self.l1 != other.l1 {
            self.l1 < other.l1
        } else {
            self.l0 <= other.l0
        }
    }

    pub fn add(&self, other: &U256) -> (r: U256)
        requires
            self.val() + other.val() < pow2_256(),
        ensures
            r.val() == self.val() + other.val(),
    {
        let t0: u128 = self.l0 as u128 + other.l0 as u128;
        proof {
            lemma_split128(t0);
        }
        let r0: u64 = (t0 % TWO64) as u64;
        let c0: u64 = (t0 / TWO64) as u64;
        let t1: u128 = self.l1 as u128 + other.l1 as u128 + c0 as u128;
        proof {
            lemma_split128(t1);
        }
        let r1: u64 = (t1 % TWO64) as u64;
        let c1: u64 = (t1 / TWO64) as u64;
        let t2: u128 = self.l2 as u128 + other.l2 as u128 + c1 as u128;
        proof {
            lemma_split128(t2);
        }
        let r2: u64 = (t2 % TWO64) as u64;
        let c2: u64 = (t2 / TWO64) as u64;
        let t3: u128 = self.l3 as u128 + other.l3 as u128 + c2 as u128;
        proof {
            lemma_split128(t3);
        }
        let r3: u64 = (t3 % TWO64) as u64;
        let c3: u64 = (t3 / TWO64) as u64;
        let r = U256 { l0: r0, l1: r1, l2: r2, l3: r3 };
        proof {
            assert(r.val() + c3 * pow2_256() == self.val() + other.val());
            assert(c3 == 0);
        }
        r
    }

    pub fn sub(&self, other: &U256) -> (r: U256)
        requires
            other.val() <= self.val(),
        ensures
            r.val() == self.val() - other.val(),
    {
        let t0: u128 = TWO64 + self.l0 as u128 - other.l0 as u128;
        proof {
            lemma_split128(t0);
        }
        let r0: u64 = (t0 % TWO64) as u64;
        let n0: u128 = t0 / TWO64;
        let bw0: u128 = 1 - n0;
        let t1: u128 = TWO64 + self.l1 as u128 - other.l1 as u128 - bw0;
        proof {
            lemma_split128(t1);
        }
        let r1: u64 = (t1 % TWO64) as u64;
        let n1: u128 = t1 / TWO64;
        let bw1: u128 = 1 - n1;
        let t2: u128 = TWO64 + self.l2 as u128 - other.l2 as u128 - bw1;
        proof {
            lemma_split128(t2);
        }
        let r2: u64 = (t2 % TWO64) as u64;
        let n2: u128 = t2 / TWO64;
        let bw2: u128 = 1 - n2;
        let t3: u128 = TWO64 + self.l3 as u128 - other.l3 as u128 - bw2;
        proof {
            lemma_split128(t3);
        }
        let r3: u64 = (t3 % TWO64) as u64;
        let n3: u128 = t3 / TWO64;
        let bw3: u128 = 1 - n3;
        let r = U256 { l0: r0, l1: r1, l2: r2, l3: r3 };
        proof {
            lemma_u256_val_bound(r);
            assert(r.val() == self.val() - other.val() + bw3 * pow2_256());
            assert(bw3 == 0);
        }
        r
    }

    /// Multiplies by a 64-bit factor; `None` when the product does not fit.
    pub fn mul_u64(&self, m: u64) -> (r: Option<U256>)
        ensures
            (match r {
                Some(v) => v.val() == self.val() * m,
                None => self.val() * m >= pow2_256(),
            }),
    {
        proof {
            lemma_mul_u64_fits(self.l0, m);
            lemma_mul_u64_fits(self.l1, m);
            lemma_mul_u64_fits(self.l2, m);
            lemma_mul_u64_fits(self.l3, m);
        }
        let p0: u128 = self.l0 as u128 * m as u128;
        let p1: u128 = self.l1 as u128 * m as u128;
        let p2: u128 = self.l2 as u128 * m as u128;
        let p3: u128 = self.l3 as u128 * m as u128;
        let t0: u128 = p0;
        proof {
            lemma_split128(t0);
        }
        let r0: u64 = (t0 % TWO64) as u64;
        let c0: u64 = (t0 / TWO64) as u64;
        let t1: u128 = p1 + c0 as u128;
        proof {
            lemma_split128(t1);
        }
        let r1: u64 = (t1 % TWO64) as u64;
        let c1: u64 = (t1 / TWO64) as u64;
        let t2: u128 = p2 + c1 as u128;
        proof {
            lemma_split128(t2);
        }
        let r2: u64 = (t2 % TWO64) as u64;
        let c2: u64 = (t2 / TWO64) as u64;
        let t3: u128 = p3 + c2 as u128;
        proof {
            lemma_split128(t3);
        }
        let r3: u64 = (t3 % TWO64) as u64;
        let c3: u64 = (t3 / TWO64) as u64;
        let v = U256 { l0: r0, l1: r1, l2: r2, l3: r3 };
        proof {
            assert((self.l0 + self.l1 * 0x10000000000000000int
                + self.l2 * 0x100000000000000000000000000000000int
                + self.l3 * 0x1000000000000000000000000000000000000000000000000int) * m == self.l0
                * m + (self.l1 * m) * 0x10000000000000000int + (self.l2 * m)
                * 0x100000000000000000000000000000000int + (self.l3 * m)
                * 0x1000000000000000000000000000000000000000000000000int) by (nonlinear_arith);
            assert(v.val() + c3 * pow2_256() == self.val() * m);
        }
        if c3 != 0 {
            None
        } else {
            Some(v)
        }
    }

    /// Whether the value is zero.
    pub fn is_zero(&self) -> (r: bool)
        ensures
            r == (self.val() == 0),
    {
        self.l0 == 0 && self.l1 == 0 && self.l2 == 0 && self.l3 == 0
    }

    /// Doubles the value; the flag reports the bit shifted out at the top.
    pub fn shl1(&self) -> (r: (U256, bool))
        ensures
            2 * self.val() == r.0.val() + if r.1 {
                pow2_256() as int
            } else {
                0
            },
    {
        let t0: u128 = self.l0 as u128 * 2;
        proof {
            lemma_split128(t0);
        }
        let r0: u64 = (t0 % TWO64) as u64;
        let c0: u64 = (t0 / TWO64) as u64;
        let t1: u128 = self.l1 as u128 * 2 + c0 as u128;
        proof {
            lemma_split128(t1);
        }
        let r1: u64 = (t1 % TWO64) as u64;
        let c1: u64 = (t1 / TWO64) as u64;
        let t2: u128 = self.l2 as u128 * 2 + c1 as u128;
        proof {
            lemma_split128(t2);
        }
        let r2: u64 = (t2 % TWO64) as u64;
        let c2: u64 = (t2 / TWO64) as u64;
        let t3: u128 = self.l3 as u128 * 2 + c2 as u128;
        proof {
            lemma_split128(t3);
        }
        let r3: u64 = (t3 % TWO64) as u64;
        let c3: u64 = (t3 / TWO64) as u64;
        let r = U256 { l0: r0, l1: r1, l2: r2, l3: r3 };
        proof {
            assert(r.val() + c3 * pow2_256() == 2 * self.val());
            assert(c3 <= 1);
        }
        (r, c3 == 1)
    }

    /// Subtraction modulo 2^256; the flag reports the borrow out of the top.
    pub fn sub_borrow(&self, other: &U256) -> (r: (U256, bool))
        ensures
            r.0.val() == self.val() - other.val() + if r.1 {
                pow2_256() as int
            } else {
                0
            },
            r.1 == (self.val() < other.val()),
    {
        let t0: u128 = TWO64 + self.l0 as u128 - other.l0 as u128;
        proof {
            lemma_split128(t0);
        }
        let r0: u64 = (t0 % TWO64) as u64;
        let n0: u128 = t0 / TWO64;
        let bw0: u128 = 1 - n0;
        let t1: u128 = TWO64 + self.l1 as u128 - other.l1 as u128 - bw0;
        proof {
            lemma_split128(t1);
        }
        let r1: u64 = (t1 % TWO64) as u64;
        let n1: u128 = t1 / TWO64;
        let bw1: u128 = 1 - n1;
        let t2: u128 = TWO64 + self.l2 as u128 - other.l2 as u128 - bw1;
        proof {
            lemma_split128(t2);
        }
        let r2: u64 = (t2 % TWO64) as u64;
        let n2: u128 = t2 / TWO64;
        let bw2: u128 = 1 - n2;
        let t3: u128 = TWO64 + self.l3 as u128 - other.l3 as u128 - bw2;
        proof {
            lemma_split128(t3);
        }
        let r3: u64 = (t3 % TWO64) as u64;
        let n3: u128 = t3 / TWO64;
        let bw3: u128 = 1 - n3;
        let r = U256 { l0: r0, l1: r1, l2: r2, l3: r3 };
        proof {
            lemma_u256_val_bound(r);
            lemma_u256_val_bound(*self);
            lemma_u256_val_bound(*other);
            assert(r.val() == self.val() - other.val() + bw3 * pow2_256());
            assert(bw3 <= 1);
        }
        (r, bw3 == 1)
    }

    /// Quotient and remainder by a 64-bit divisor.
    pub fn div_rem_u64(&self, d: u64) -> (r: (U256, u64))
        requires
            d > 0,
        ensures
            r.0.val() == self.val() / (d as nat),
            r.1 == self.val() % (d as nat),
            r.1 < d,
    {
        let q3: u64 = self.l3 / d;
        let r3: u64 = self.l3 % d;
        let t2: u128 = r3 as u128 * TWO64 + self.l2 as u128;
        proof {
            lemma_div_step(t2, r3, d);
        }
        let q2: u64 = (t2 / d as u128) as u64;
        let r2: u64 = (t2 % d as u128) as u64;
        let t1: u128 = r2 as u128 * TWO64 + self.l1 as u128;
        proof {
            lemma_div_step(t1, r2, d);
        }
        let q1: u64 = (t1 / d as u128) as u64;
        let r1: u64 = (t1 % d as u128) as u64;
        let t0: u128 = r1 as u128 * TWO64 + self.l0 as u128;
        proof {
            lemma_div_step(t0, r1, d);
        }
        let q0: u64 = (t0 / d as u128) as u64;
        let r0: u64 = (t0 % d as u128) as u64;
        let q = U256 { l0: q0, l1: q1, l2: q2, l3: q3 };
        proof {
            lemma_fundamental_div_mod(self.l3 as int, d as int);
            lemma_mod_bound(self.l3 as int, d as int);
            assert(self.val() == (d * q0) + (d * q1) * 0x10000000000000000int + (d * q2)
                * 0x100000000000000000000000000000000int + (d * q3)
                * 0x1000000000000000000000000000000000000000000000000int + r0);
            assert((q0 + q1 * 0x10000000000000000int + q2 * 0x100000000000000000000000000000000int + q3
                * 0x1000000000000000000000000000000000000000000000000int) * d == (d * q0) + (d * q1)
                * 0x10000000000000000int + (d * q2) * 0x100000000000000000000000000000000int + (d * q3)
                * 0x1000000000000000000000000000000000000000000000000int) by (nonlinear_arith);
            lemma_fundamental_div_mod_converse(
                self.val() as int,
                d as int,
                q.val() as int,
                r0 as int,
            );
        }
        (q, r0)
    }
}

/// Every `U256` value lies below 2^256.
pub proof fn lemma_u256_val_bound(a: U256)
    ensures
        a.val() < pow2_256(),
{
}

/// Limb-lexicographic order agrees with the order of the values.
proof fn lemma_u256_cmp(a: U256, b: U256)
    ensures
        a.l3 < b.l3 ==> a.val() < b.val(),
        a.l3 == b.l3 && a.l2 < b.l2 ==> a.val() < b.val(),
        a.l3 == b.l3 && a.l2 == b.l2 && a.l1 < b.l1 ==> a.val() < b.val(),
        a.l3 == b.l3 && a.l2 == b.l2 && a.l1 == b.l1 && a.l0 <= b.l0 ==> a.val() <= b.val(),
{
}

proof fn lemma_split128(t: u128)
    ensures
        t == 0x10000000000000000 * (t / 0x10000000000000000) + t % 0x10000000000000000,
        t % 0x10000000000000000 < 0x10000000000000000,
{
    lemma_fundamental_div_mod(t as int, 0x10000000000000000int);
    lemma_mod_bound(t as int, 0x10000000000000000int);
}

proof fn lemma_mul_u64_fits(a: u64, b: u64)
    ensures
        a * b <= 0xfffffffffffffffe0000000000000001int,
{
    lemma_mul_upper_bound(a as int, 0xffffffffffffffff, b as int, 0xffffffffffffffff);
}

/// One limb step of schoolbook long division: with a remainder below `d`
/// shifted in front of the next limb, the next quotient digit fits one limb.
proof fn lemma_div_step(t: u128, rem: u64, d: u64)
    requires
        d > 0,
        rem < d,
        t <= rem * 0x10000000000000000int + 0xffffffffffffffffint,
    ensures
        t == d * (t / (d as u128)) + t % (d as u128),
        t % (d as u128) < d,
        t / (d as u128) < 0x10000000000000000int,
{
    lemma_fundamental_div_mod(t as int, d as int);
    lemma_mod_bound(t as int, d as int);
    assert(t < d * 0x10000000000000000int);
    lemma_multiply_divide_lt(t as int, d as int, 0x10000000000000000int);
}

} // verus!
