//! Exact rational scalars.
//!
//! Every coordinate, texture region, depth and tint in the engine is a
//! rational number `num / den` with a positive denominator, so the contracts
//! of the atlas and the batch renderer can state the produced values exactly.
//! The arithmetic operations require their operands to be within
//! [`RAT_MAX_NUM`] / [`RAT_MAX_DEN`], which keeps every intermediate product
//! inside `i64`.
use vstd::prelude::*;

verus! {

/// Largest numerator magnitude accepted by the arithmetic operations.
pub const RAT_MAX_NUM: i64 = 0x100_0000_0000;

/// Largest denominator accepted by the arithmetic operations.
pub const RAT_MAX_DEN: i64 = 0x10_0000;

/// The mathematical value of a [`Rat`]: a pair of unbounded integers.
pub struct RatV {
    pub n: int,
    pub d: int,
}

/// A well-formed rational value has a positive denominator.
pub open spec fn rv_wf(a: RatV) -> bool {
    a.d > 0
}

/// A rational value small enough to be an operand of the arithmetic
/// operations.
pub open spec fn rv_small(a: RatV) -> bool {
    &&& -RAT_MAX_NUM <= a.n <= RAT_MAX_NUM
    &&& 0 < a.d <= RAT_MAX_DEN
}

/// Two rational values denote the same number (cross multiplication).
pub open spec fn rv_eq(a: RatV, b: RatV) -> bool {
    a.n * b.d == b.n * a.d
}

/// The rational value of an integer.
pub open spec fn rv_int(i: int) -> RatV {
    RatV { n: i, d: 1 }
}

pub open spec fn rv_neg(a: RatV) -> RatV {
    RatV { n: -a.n, d: a.d }
}

pub open spec fn rv_half(a: RatV) -> RatV {
    RatV { n: a.n, d: 2 * a.d }
}

pub open spec fn rv_add(a: RatV, b: RatV) -> RatV {
    RatV { n: a.n * b.d + b.n * a.d, d: a.d * b.d }
}

pub open spec fn rv_sub(a: RatV, b: RatV) -> RatV {
    rv_add(a, rv_neg(b))
}

pub open spec fn rv_mul_int(a: RatV, k: int) -> RatV {
    RatV { n: a.n * k, d: a.d }
}

pub open spec fn rv_div_int(a: RatV, k: int) -> RatV {
    RatV { n: a.n, d: a.d * k }
}

/// Rounding to the nearest integer, ties away from zero.
pub open spec fn rv_round(a: RatV) -> int {
    if a.n >= 0 {
        (2 * a.n + a.d) / (2 * a.d)
    } else {
        -((-2 * a.n + a.d) / (2 * a.d))
    }
}

/// An exact rational scalar `num / den`.
#[derive(Clone, Copy, Debug, PartialEq, Eq, Structural)]
pub struct Rat {
    pub num: i64,
    pub den: i64,
}

impl View for Rat {
    type V = RatV;

    open spec fn view(&self) -> RatV {
        RatV { n: self.num as int, d: self.den as int }
    }
}

/// For `0 <= n <= RAT_MAX_NUM` and `1 <= d`, the half-up quotient
/// `(2n + d) / (2d)` lies within `[0, RAT_MAX_NUM]`.
proof fn lemma_half_up_div_bounded(u: int, v: int, n: int, d: int)
    requires
        0 <= n <= RAT_MAX_NUM,
        1 <= d,
        u == 2 * n + d,
        v == 2 * d,
    ensures
        0 <= u / v <= RAT_MAX_NUM,
{
    let b = RAT_MAX_NUM as int;
    vstd::arithmetic::div_mod::lemma_div_pos_is_pos(u, v);
    assert(u <= (b + 1) * v - 1) by (nonlinear_arith)
        requires
            0 <= n <= b,
            1 <= d,
            u == 2 * n + d,
            v == 2 * d,
            b == 0x100_0000_0000,
    ;
    vstd::arithmetic::div_mod::lemma_div_is_ordered(u, (b + 1) * v - 1, v);
    vstd::arithmetic::div_mod::lemma_fundamental_div_mod_converse((b + 1) * v - 1, v, b, v - 1);
}

proof fn lemma_neg_mul(x: int, y: int)
    by (nonlinear_arith)
    ensures
        (-x) * y == -(x * y),
{
}

proof fn lemma_product_bounds(xn: int, xd: int, yn: int, yd: int)
    by (nonlinear_arith)
    requires
        -0x100_0000_0000 <= xn <= 0x100_0000_0000,
        -0x100_0000_0000 <= yn <= 0x100_0000_0000,
        0 < xd <= 0x10_0000,
        0 < yd <= 0x10_0000,
    ensures
        -0x1000_0000_0000_0000 <= xn * yd <= 0x1000_0000_0000_0000,
        -0x1000_0000_0000_0000 <= yn * xd <= 0x1000_0000_0000_0000,
        -0x2000_0000_0000_0000 <= xn * (2 * yd) <= 0x2000_0000_0000_0000,
        0 < xd * yd <= 0x100_0000_0000,
        0 < xd * (2 * yd) <= 0x200_0000_0000,
{
}

impl Rat {
    /// A rational is well-formed when its denominator is positive.
    pub open spec fn wf(self) -> bool {
        rv_wf(self@)
    }

    /// A rational small enough to be an operand of the arithmetic operations.
    pub open spec fn small(self) -> bool {
        rv_small(self@)
    }

    pub fn new(num: i64, den: i64) -> (r: Rat)
        requires
            den > 0,
        ensures
            r@ == (RatV { n: num as int, d: den as int }),
            r.wf(),
    {
        Rat { num, den }
    }

    pub fn from_int(i: i64) -> (r: Rat)
        ensures
            r@ == rv_int(i as int),
            r.wf(),
    {
        Rat { num: i, den: 1 }
    }

    pub fn neg(self) -> (r: Rat)
        requires
            self.wf(),
            self@.n != i64::MIN,
        ensures
            r@ == rv_neg(self@),
            r.wf(),
    {
        Rat { num: -self.num, den: self.den }
    }

    pub fn half(self) -> (r: Rat)
        requires
            self.wf(),
            self@.d <= 0x2000_0000_0000_0000,
        ensures
            r@ == rv_half(self@),
            r.wf(),
    {
        Rat { num: self.num, den: 2 * self.den }
    }

    pub fn add(self, other: Rat) -> (r: Rat)
        requires
            self.small(),
            other.small(),
        ensures
            r@ == rv_add(self@, other@),
            r.wf(),
    {
        proof {
            lemma_product_bounds(self@.n, self@.d, other@.n, other@.d);
        }
        Rat {
            num: self.num * other.den + other.num * self.den,
            den: self.den * other.den,
        }
    }

    pub fn sub(self, other: Rat) -> (r: Rat)
        requires
            self.small(),
            other.small(),
        ensures
            r@ == rv_sub(self@, other@),
            r.wf(),
    {
        proof {
            lemma_product_bounds(self@.n, self@.d, other@.n, other@.d);
            lemma_neg_mul(other@.n, self@.d);
        }
        Rat {
            num: self.num * other.den - other.num * self.den,
            den: self.den * other.den,
        }
    }

    /// `self - other / 2`, in one step so the halved operand needs no
    /// intermediate bound of its own.
    pub fn sub_half(self, other: Rat) -> (r: Rat)
        requires
            self.small(),
            other.small(),
        ensures
            r@ == rv_sub(self@, rv_half(other@)),
            r.wf(),
    {
        proof {
            lemma_product_bounds(self@.n, self@.d, other@.n, other@.d);
            lemma_neg_mul(other@.n, self@.d);
        }
        Rat {
            num: self.num * (2 * other.den) - other.num * self.den,
            den: self.den * (2 * other.den),
        }
    }

    /// `self + other / 2`.
    pub fn add_half(self, other: Rat) -> (r: Rat)
        requires
            self.small(),
            other.small(),
        ensures
            r@ == rv_add(self@, rv_half(other@)),
            r.wf(),
    {
        proof {
            lemma_product_bounds(self@.n, self@.d, other@.n, other@.d);
        }
        Rat {
            num: self.num * (2 * other.den) + other.num * self.den,
            den: self.den * (2 * other.den),
        }
    }

    pub fn mul_int(self, k: i64) -> (r: Rat)
        requires
            self.small(),
            -RAT_MAX_DEN <= k <= RAT_MAX_DEN,
        ensures
            r@ == rv_mul_int(self@, k as int),
            r.wf(),
    {
        assert(-0x1000_0000_0000_0000 <= self@.n * k <= 0x1000_0000_0000_0000)
            by (nonlinear_arith)
            requires
                -0x100_0000_0000 <= self@.n <= 0x100_0000_0000,
                -0x10_0000 <= k <= 0x10_0000,
        ;
        Rat { num: self.num * k, den: self.den }
    }

    pub fn div_int(self, k: i64) -> (r: Rat)
        requires
            self.small(),
            0 < k <= RAT_MAX_DEN,
        ensures
            r@ == rv_div_int(self@, k as int),
            r.wf(),
    {
        assert(0 < self@.d * k <= 0x100_0000_0000) by (nonlinear_arith)
            requires
                0 < self@.d <= 0x10_0000,
                0 < k <= 0x10_0000,
        ;
        Rat { num: self.num, den: self.den * k }
    }

    /// Rounds to the nearest integer, ties away from zero.
    pub fn round(self) -> (r: i64)
        requires
            self.small(),
        ensures
            r == rv_round(self@),
            -RAT_MAX_NUM <= r <= RAT_MAX_NUM,
    {
        if self.num >= 0 {
            let u: u64 = (2 * self.num + self.den) as u64;
            let v: u64 = (2 * self.den) as u64;
            let q: u64 = u / v;
            proof {
                lemma_half_up_div_bounded(u as int, v as int, self@.n, self@.d);
            }
            q as i64
        } else {
            let m: i64 = -self.num;
            let u: u64 = (2 * m + self.den) as u64;
            let v: u64 = (2 * self.den) as u64;
            let q: u64 = u / v;
            proof {
                lemma_half_up_div_bounded(u as int, v as int, -self@.n, self@.d);
            }
            -(q as i64)
        }
    }
}

} // verus!
