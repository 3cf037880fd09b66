//! Fixed-point scalar arithmetic.
//!
//! A scalar is stored as `raw / FX_SCALE`. All operations saturate at
//! `±i64::MAX` (the range is symmetric so that negation is exact), and
//! every operation's result is pinned down exactly by the spec functions
//! `fadd`, `fsub`, `fneg`, `fmul`, `fdiv` and `fsqrt` over the raw values.

use vstd::prelude::*;

verus! {

/// Number of raw units per whole unit. Chosen so that the simulation's
/// tuning constants (1/60, 0.6, 0.9, 0.02) are all exactly representable.
pub const FX_SCALE: i64 = 60000;

/// Largest raw magnitude a scalar may hold; the range is symmetric.
pub const RAW_BOUND: i64 = 9223372036854775807;

/// Saturate an unbounded integer into the symmetric raw range.
pub open spec fn clip(v: int) -> int {
    if v > RAW_BOUND as int {
        RAW_BOUND as int
    } else if v < -(RAW_BOUND as int) {
        -(RAW_BOUND as int)
    } else {
        v
    }
}

/// Division truncating toward zero (the behaviour of `/` on machine
/// integers), for a positive divisor.
pub open spec fn tdiv(a: int, b: int) -> int
    recommends
        b > 0,
{
    if a >= 0 {
        a / b
    } else {
        -((-a) / b)
    }
}

/// Raw-value meaning of fixed-point addition.
pub open spec fn fadd(a: int, b: int) -> int {
    clip(a + b)
}

/// Raw-value meaning of fixed-point subtraction.
pub open spec fn fsub(a: int, b: int) -> int {
    clip(a - b)
}

/// Raw-value meaning of fixed-point negation.
pub open spec fn fneg(a: int) -> int {
    clip(-a)
}

/// Raw-value meaning of fixed-point multiplication.
pub open spec fn fmul(a: int, b: int) -> int {
    clip(tdiv(a * b, FX_SCALE as int))
}

/// Raw-value meaning of fixed-point division by a positive raw value.
pub open spec fn fdiv(a: int, b: int) -> int
    recommends
        b > 0,
{
    clip(tdiv(a * (FX_SCALE as int), b))
}

/// Raw-value meaning of fixed-point absolute value.
pub open spec fn fabs(a: int) -> int {
    if a < 0 {
        clip(-a)
    } else {
        a
    }
}

/// `r` is the floor of the real square root of `n`.
pub open spec fn is_sqrt_floor(n: int, r: int) -> bool {
    0 <= r && r * r <= n && n < (r + 1) * (r + 1)
}

/// The floor of the real square root of a non-negative integer.
pub open spec fn sqrt_floor(n: int) -> int
    recommends
        n >= 0,
{
    choose|r: int| is_sqrt_floor(n, r)
}

/// Raw-value meaning of fixed-point square root.
pub open spec fn fsqrt(a: int) -> int
    recommends
        a >= 0,
{
    sqrt_floor(a * (FX_SCALE as int))
}

/// No two distinct integers are both the floor square root of `n`.
proof fn lemma_sqrt_floor_unique(n: int, r1: int, r2: int)
    requires
        is_sqrt_floor(n, r1),
        is_sqrt_floor(n, r2),
    ensures
        r1 == r2,
{
    assert(r1 == r2) by (nonlinear_arith)
        requires
            0 <= r1 && r1 * r1 <= n && n < (r1 + 1) * (r1 + 1),
            0 <= r2 && r2 * r2 <= n && n < (r2 + 1) * (r2 + 1),
    ;
}

/// If `r` witnesses the floor square root of `n`, then `sqrt_floor(n)` is `r`.
pub proof fn lemma_sqrt_floor_is(n: int, r: int)
    requires
        is_sqrt_floor(n, r),
    ensures
        sqrt_floor(n) == r,
{
    let s = choose|s: int| is_sqrt_floor(n, s);
    lemma_sqrt_floor_unique(n, s, r);
}

/// Every non-negative integer has a floor square root, so the chosen
/// `sqrt_floor` value really is one.
pub proof fn lemma_sqrt_floor_props(n: int)
    requires
        n >= 0,
    ensures
        is_sqrt_floor(n, sqrt_floor(n)),
    decreases n,
{
    if n == 0 {
        assert(is_sqrt_floor(0, 0));
    } else {
        lemma_sqrt_floor_props(n - 1);
        let r = sqrt_floor(n - 1);
        if n < (r + 1) * (r + 1) {
            assert(is_sqrt_floor(n, r));
        } else {
            assert(is_sqrt_floor(n, r + 1)) by (nonlinear_arith)
                requires
                    r >= 0,
                    r * r <= n - 1,
                    n - 1 < (r + 1) * (r + 1),
                    n >= (r + 1) * (r + 1),
            ;
        }
        assert(exists|s: int| is_sqrt_floor(n, s));
        lemma_sqrt_floor_unique(n, sqrt_floor(n), choose|s: int| is_sqrt_floor(n, s));
    }
}

/// If `n` is at least `m * m` then its floor square root is at least `m`.
pub proof fn lemma_sqrt_floor_at_least(n: int, m: int)
    requires
        m >= 0,
        n >= m * m,
    ensures
        sqrt_floor(n) >= m,
{
    assert(n >= 0) by (nonlinear_arith)
        requires
            m >= 0,
            n >= m * m,
    ;
    lemma_sqrt_floor_props(n);
    let r = sqrt_floor(n);
    assert(r >= m) by (nonlinear_arith)
        requires
            r >= 0,
            n < (r + 1) * (r + 1),
            n >= m * m,
            m >= 0,
    ;
}

/// Truncating division keeps order on non-negative dividends.
pub proof fn lemma_tdiv_ordered(a: int, b: int, d: int)
    requires
        0 <= a <= b,
        d > 0,
    ensures
        tdiv(a, d) <= tdiv(b, d),
{
    vstd::arithmetic::div_mod::lemma_div_is_ordered(a, b, d);
}

/// Truncating division of a non-negative value is non-negative and
/// never exceeds the dividend.
pub proof fn lemma_tdiv_nonneg(a: int, b: int)
    requires
        a >= 0,
        b > 0,
    ensures
        0 <= tdiv(a, b) <= a,
{
    vstd::arithmetic::div_mod::lemma_div_basics_4(a, b);
    vstd::arithmetic::div_mod::lemma_div_basics_5(a, b);
}

/// Truncating division commutes with negation of the dividend.
pub proof fn lemma_tdiv_neg(a: int, b: int)
    requires
        b > 0,
    ensures
        tdiv(-a, b) == -tdiv(a, b),
{
    vstd::arithmetic::div_mod::lemma_div_basics_1(b);
}

/// Saturation commutes with negation (the raw range is symmetric).
pub proof fn lemma_clip_neg(a: int)
    ensures
        clip(-a) == -clip(a),
{
}

/// A product of non-negative factors has a non-negative fixed-point product.
pub proof fn lemma_fmul_nonneg(a: int, b: int)
    requires
        a >= 0,
        b >= 0,
    ensures
        fmul(a, b) >= 0,
{
    assert(a * b >= 0) by (nonlinear_arith)
        requires
            a >= 0,
            b >= 0,
    ;
    lemma_tdiv_nonneg(a * b, FX_SCALE as int);
}

/// A fixed-point square is non-negative.
pub proof fn lemma_fmul_self_nonneg(a: int)
    ensures
        fmul(a, a) >= 0,
{
    assert(a * a >= 0) by (nonlinear_arith);
    lemma_tdiv_nonneg(a * a, FX_SCALE as int);
}

/// Squaring ignores the sign of its argument.
pub proof fn lemma_fmul_square_neg(a: int)
    ensures
        fmul(-a, -a) == fmul(a, a),
{
    assert((-a) * (-a) == a * a) by (nonlinear_arith);
}

/// Fixed-point division of a non-negative value by a positive one is
/// non-negative.
pub proof fn lemma_fdiv_nonneg(a: int, b: int)
    requires
        a >= 0,
        b > 0,
    ensures
        fdiv(a, b) >= 0,
{
    lemma_tdiv_nonneg(a * (FX_SCALE as int), b);
}

/// Fixed-point multiplication commutes with negation of a factor.
pub proof fn lemma_fmul_neg(a: int, b: int)
    ensures
        fmul(a, -b) == -fmul(a, b),
{
    assert(a * (-b) == -(a * b)) by (nonlinear_arith);
    lemma_tdiv_neg(a * b, FX_SCALE as int);
    lemma_clip_neg(tdiv(a * b, FX_SCALE as int));
}

/// Fixed-point division commutes with negation of the dividend.
pub proof fn lemma_fdiv_neg(a: int, b: int)
    requires
        b > 0,
    ensures
        fdiv(-a, b) == -fdiv(a, b),
{
    assert((-a) * (FX_SCALE as int) == -(a * (FX_SCALE as int)));
    lemma_tdiv_neg(a * (FX_SCALE as int), b);
    lemma_clip_neg(tdiv(a * (FX_SCALE as int), b));
}

/// A fixed-point scalar: the real value represented is `raw / FX_SCALE`.
#[derive(Clone, Copy, PartialEq, Eq, Structural, Debug)]
pub struct Fx {
    pub raw: i64,
}

/// Saturate a wide intermediate into the symmetric `i64` range.
fn clip_exec(v: i128) -> (r: i64)
    ensures
        r as int == clip(v as int),
{
    if v > RAW_BOUND as i128 {
        RAW_BOUND
    } else if v < -(RAW_BOUND as i128) {
        -RAW_BOUND
    } else {
        v as i64
    }
}

/// Truncating division on wide intermediates, positive divisor.
fn tdiv_exec(a: i128, b: i128) -> (r: i128)
    requires
        b > 0,
        a > i128::MIN,
    ensures
        r as int == tdiv(a as int, b as int),
{
    if a >= 0 {
        let q: u128 = (a as u128) / (b as u128);
        proof {
            vstd::arithmetic::div_mod::lemma_div_basics_5(a as int, b as int);
        }
        q as i128
    } else {
        let na: i128 = -a;
        let q: u128 = (na as u128) / (b as u128);
        proof {
            vstd::arithmetic::div_mod::lemma_div_basics_5(na as int, b as int);
        }
        -(q as i128)
    }
}

/// Floor square root on a wide unsigned integer, by bisection.
fn isqrt_u128(n: u128) -> (r: u128)
    ensures
        is_sqrt_floor(n as int, r as int),
        r as int == sqrt_floor(n as int),
        r < 0x1_0000_0000_0000_0000u128,
{
    let mut lo: u128 = 0;
    let mut hi: u128 = 0x1_0000_0000_0000_0000u128;
    proof {
        assert((hi as int) * (hi as int) > n as int) by (nonlinear_arith)
            requires
                hi as int == 0x1_0000_0000_0000_0000,
                (n as int) < 0x1_0000_0000_0000_0000_0000_0000_0000_0000,
        ;
    }
    while lo + 1 < hi
        invariant
            lo < hi,
            hi <= 0x1_0000_0000_0000_0000u128,
            (lo as int) * (lo as int) <= n as int,
            (hi as int) * (hi as int) > n as int,
        decreases hi - lo,
    {
        let mid: u128 = lo + (hi - lo) / 2;
        proof {
            assert((mid as int) * (mid as int) < 0x1_0000_0000_0000_0000_0000_0000_0000_0000)
                by (nonlinear_arith)
                requires
                    (mid as int) < 0x1_0000_0000_0000_0000,
            ;
        }
        if mid * mid <= n {
            lo = mid;
        } else {
            hi = mid;
        }
    }
    proof {
        lemma_sqrt_floor_is(n as int, lo as int);
    }
    lo
}

impl Fx {
    /// Raw values are kept in the symmetric range so negation is exact.
    pub open spec fn wf(self) -> bool {
        -(RAW_BOUND as int) <= (self.raw as int) <= RAW_BOUND as int
    }

    /// The zero scalar.
    pub fn zero() -> (r: Fx)
        ensures
            r.raw == 0,
            r.wf(),
    {
        Fx { raw: 0 }
    }

    /// Build a scalar from its raw representation.
    pub fn from_raw(raw: i64) -> (r: Fx)
        ensures
            r.raw == raw,
    {
        Fx { raw }
    }

    /// Build a scalar holding the whole number `n`.
    pub fn from_int(n: i64) -> (r: Fx)
        ensures
            r.raw as int == clip(n * (FX_SCALE as int)),
            r.wf(),
    {
        proof {
            assert(-0x8000_0000_0000_0000 * 60000 <= (n as int) * (FX_SCALE as int)
                <= 0x7fff_ffff_ffff_ffff * 60000) by (nonlinear_arith)
                requires
                    -0x8000_0000_0000_0000 <= (n as int) <= 0x7fff_ffff_ffff_ffff,
                    FX_SCALE as int == 60000,
        ;
        }
        let wide: i128 = (n as i128) * (FX_SCALE as i128);
        Fx { raw: clip_exec(wide) }
    }

    /// Saturating fixed-point addition.
    pub fn add(self, o: Fx) -> (r: Fx)
        ensures
            r.raw as int == fadd(self.raw as int, o.raw as int),
            r.wf(),
    {
        Fx { raw: clip_exec(self.raw as i128 + o.raw as i128) }
    }

    /// Saturating fixed-point subtraction.
    pub fn sub(self, o: Fx) -> (r: Fx)
        ensures
            r.raw as int == fsub(self.raw as int, o.raw as int),
            r.wf(),
    {
        Fx { raw: clip_exec(self.raw as i128 - o.raw as i128) }
    }

    /// Saturating fixed-point negation.
    pub fn neg(self) -> (r: Fx)
        ensures
            r.raw as int == fneg(self.raw as int),
            r.wf(),
    {
        Fx { raw: clip_exec(-(self.raw as i128)) }
    }

    /// Saturating fixed-point multiplication.
    pub fn mul(self, o: Fx) -> (r: Fx)
        ensures
            r.raw as int == fmul(self.raw as int, o.raw as int),
            r.wf(),
    {
        proof {
            assert(-0x4000_0000_0000_0000_0000_0000_0000_0000
                < (self.raw as int) * (o.raw as int)
                <= 0x4000_0000_0000_0000_0000_0000_0000_0000) by (nonlinear_arith)
                requires
                    -0x8000_0000_0000_0000 <= (self.raw as int) <= 0x7fff_ffff_ffff_ffff,
                    -0x8000_0000_0000_0000 <= (o.raw as int) <= 0x7fff_ffff_ffff_ffff,
        ;
        }
        let p: i128 = (self.raw as i128) * (o.raw as i128);
        Fx { raw: clip_exec(tdiv_exec(p, FX_SCALE as i128)) }
    }

    /// Saturating fixed-point division by a positive scalar.
    pub fn div(self, o: Fx) -> (r: Fx)
        requires
            o.raw > 0,
        ensures
            r.raw as int == fdiv(self.raw as int, o.raw as int),
            r.wf(),
    {
        proof {
            assert(-0x8000_0000_0000_0000 * 60000 <= (self.raw as int) * (FX_SCALE as int)
                <= 0x7fff_ffff_ffff_ffff * 60000) by (nonlinear_arith)
                requires
                    -0x8000_0000_0000_0000 <= (self.raw as int) <= 0x7fff_ffff_ffff_ffff,
                    FX_SCALE as int == 60000,
        ;
        }
        let p: i128 = (self.raw as i128) * (FX_SCALE as i128);
        Fx { raw: clip_exec(tdiv_exec(p, o.raw as i128)) }
    }

    /// Fixed-point square root of a non-negative scalar.
    pub fn sqrt(self) -> (r: Fx)
        requires
            self.raw >= 0,
        ensures
            r.raw as int == fsqrt(self.raw as int),
            r.raw >= 0,
            r.wf(),
    {
        proof {
            assert((self.raw as int) * (FX_SCALE as int) <= 0x7fff_ffff_ffff_ffff * 60000)
                by (nonlinear_arith)
                requires
                    0 <= (self.raw as int) <= 0x7fff_ffff_ffff_ffff,
                    FX_SCALE as int == 60000,
        ;
        }
        let wide: u128 = (self.raw as u128) * (FX_SCALE as u128);
        let root: u128 = isqrt_u128(wide);
        proof {
            assert((root as int) <= 0x7fff_ffff_ffff_ffff) by (nonlinear_arith)
                requires
                    0 <= root as int,
                    (root as int) * (root as int) <= wide as int,
                    (wide as int) <= 0x7fff_ffff_ffff_ffff * 60000,
        ;
        }
        Fx { raw: root as i64 }
    }

    /// Absolute value (saturating, so the result is never negative).
    pub fn abs(self) -> (r: Fx)
        ensures
            r.raw as int == fabs(self.raw as int),
            r.raw >= 0,
            r.wf(),
    {
        if self.raw < 0 {
            self.neg()
        } else {
            self
        }
    }
}

} // verus!
