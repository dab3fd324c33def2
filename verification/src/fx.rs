//! Fixed-point scalar arithmetic.
//!
//! A real quantity is represented by an integer count of units of `1 / SCALE`;
//! the raw count is bounded by `CAP` and every operation saturates at that
//! bound, so the arithmetic is total. Division by zero and square roots of
//! negative values are given explicit results (signed saturation and zero),
//! as the surrounding geometry treats such cases as "no result" anyway.

use vstd::prelude::*;

verus! {

/// Number of raw units that represent the real value one.
pub const SCALE: i64 = 0x1_0000_0000;

/// Largest raw magnitude a scalar may hold.
pub const CAP: i64 = 0x4000_0000_0000_0000;

/// Clamp a raw count into the representable range.
pub open spec fn sat(x: int) -> int {
    if x > CAP as int {
        CAP as int
    } else if x < -(CAP as int) {
        -(CAP as int)
    } else {
        x
    }
}

pub open spec fn abs_i(x: int) -> int {
    if x < 0 {
        -x
    } else {
        x
    }
}

/// Division that truncates toward zero, as the executable code computes it
/// on magnitudes. Meaningful for `b != 0`.
pub open spec fn tdiv(a: int, b: int) -> int {
    if (a < 0) == (b < 0) {
        abs_i(a) / abs_i(b)
    } else {
        -(abs_i(a) / abs_i(b))
    }
}

/// Raw-unit sum of two scalars.
pub open spec fn fx_add(a: int, b: int) -> int {
    sat(a + b)
}

/// Raw-unit difference of two scalars.
pub open spec fn fx_sub(a: int, b: int) -> int {
    sat(a - b)
}

/// Raw-unit product of two scalars.
pub open spec fn fx_mul(a: int, b: int) -> int {
    sat(tdiv(a * b, SCALE as int))
}

/// Raw-unit quotient of two scalars. A zero divisor saturates with the
/// dividend's sign, standing in for an infinite quotient.
pub open spec fn fx_div(a: int, b: int) -> int {
    if b == 0 {
        if a > 0 {
            CAP as int
        } else if a < 0 {
            -(CAP as int)
        } else {
            0
        }
    } else {
        sat(tdiv(a * SCALE, b))
    }
}

/// Integer square root, rounded down.
pub open spec fn isqrt_spec(n: nat) -> nat
    decreases n,
{
    if n == 0 {
        0
    } else {
        let r = 2 * isqrt_spec((n / 4) as nat);
        if (r + 1) * (r + 1) <= n {
            (r + 1) as nat
        } else {
            r
        }
    }
}

/// Raw-unit square root of a scalar; non-positive inputs map to zero.
pub open spec fn fx_sqrt(a: int) -> int {
    if a <= 0 {
        0
    } else {
        isqrt_spec((a * SCALE) as nat) as int
    }
}

/// Truncating division by a positive divisor respects order.
pub proof fn lemma_tdiv_mono(a: int, b: int, d: int)
    requires
        a <= b,
        d > 0,
    ensures
        tdiv(a, d) <= tdiv(b, d),
{
    if a >= 0 {
        vstd::arithmetic::div_mod::lemma_div_is_ordered(a, b, d);
    } else if b >= 0 {
        vstd::arithmetic::div_mod::lemma_div_is_ordered(0, b, d);
        vstd::arithmetic::div_mod::lemma_div_is_ordered(0, -a, d);
    } else {
        vstd::arithmetic::div_mod::lemma_div_is_ordered(-b, -a, d);
    }
}

/// Division by a positive scalar respects the order of the dividends.
pub proof fn lemma_fx_div_mono_num(a1: int, a2: int, b: int)
    requires
        a1 <= a2,
        b > 0,
    ensures
        fx_div(a1, b) <= fx_div(a2, b),
{
    assert(a1 * SCALE <= a2 * SCALE) by (nonlinear_arith)
        requires
            a1 <= a2,
    ;
    lemma_tdiv_mono(a1 * SCALE, a2 * SCALE, b);
}

/// A product of non-negative scalars is non-negative.
pub proof fn lemma_mul_nonneg(a: int, b: int)
    requires
        0 <= a,
        0 <= b,
    ensures
        0 <= fx_mul(a, b),
{
    assert(0 <= a * b) by (nonlinear_arith)
        requires
            0 <= a,
            0 <= b,
    ;
}

/// A square is non-negative.
pub proof fn lemma_mul_self_nonneg(a: int)
    ensures
        0 <= fx_mul(a, a),
{
    assert(0 <= a * a) by (nonlinear_arith);
}

/// Multiplying by one clamps and otherwise changes nothing.
pub proof fn lemma_fx_mul_one(x: int)
    ensures
        fx_mul(SCALE as int, x) == sat(x),
{
    if x >= 0 {
        vstd::arithmetic::div_mod::lemma_div_multiples_vanish(x, SCALE as int);
        assert(0 <= (SCALE as int) * x) by (nonlinear_arith)
            requires
                x >= 0,
        ;
        assert(tdiv((SCALE as int) * x, SCALE as int) == x);
    } else {
        vstd::arithmetic::div_mod::lemma_div_multiples_vanish(-x, SCALE as int);
        assert((SCALE as int) * x <= 0 && -((SCALE as int) * x) == (SCALE as int) * (-x))
            by (nonlinear_arith)
            requires
                x < 0,
        ;
        assert(tdiv((SCALE as int) * x, SCALE as int) == x);
    }
}

/// The square root of at most one is at most one.
pub proof fn lemma_fx_sqrt_le_scale(a: int)
    requires
        a <= SCALE as int,
    ensures
        0 <= fx_sqrt(a) <= SCALE as int,
{
    if a <= 0 {
    } else {
        let n = (a * SCALE) as nat;
        assert(a * SCALE <= (SCALE as int) * SCALE && 0 <= a * SCALE) by (nonlinear_arith)
            requires
                0 < a <= SCALE as int,
        ;
        lemma_isqrt_props(n);
        let s = isqrt_spec(n);
        if s > SCALE as int {
            assert(s * s > (SCALE as int) * (SCALE as int)) by (nonlinear_arith)
                requires
                    s > SCALE as int,
            ;
        }
    }
}

/// Negating one factor negates the saturated product.
pub proof fn lemma_mul_neg(a: int, b: int)
    ensures
        fx_mul(a, -b) == -fx_mul(a, b),
{
    assert(a * (-b) == -(a * b)) by (nonlinear_arith);
}

pub proof fn lemma_isqrt_props(n: nat)
    ensures
        isqrt_spec(n) * isqrt_spec(n) <= n,
        n < (isqrt_spec(n) + 1) * (isqrt_spec(n) + 1),
    decreases n,
{
    if n == 0 {
        assert(isqrt_spec(0) == 0);
        assert(n < (isqrt_spec(n) + 1) * (isqrt_spec(n) + 1)) by (nonlinear_arith)
            requires
                n == 0,
                isqrt_spec(n) == 0,
        ;
    } else {
        let m = (n / 4) as nat;
        lemma_isqrt_props(m);
        let r0 = isqrt_spec(m);
        let r = 2 * r0;
        assert(4 * m <= n < 4 * (m + 1));
        assert(r * r <= 4 * m) by (nonlinear_arith)
            requires
                r == 2 * r0,
                r0 * r0 <= m,
        ;
        assert(n < (r + 2) * (r + 2)) by (nonlinear_arith)
            requires
                r == 2 * r0,
                m < (r0 + 1) * (r0 + 1),
                n < 4 * (m + 1),
        ;
        if (r + 1) * (r + 1) <= n {
            assert(isqrt_spec(n) == r + 1);
            assert(isqrt_spec(n) * isqrt_spec(n) <= n);
            assert(n < (isqrt_spec(n) + 1) * (isqrt_spec(n) + 1));
        } else {
            assert(isqrt_spec(n) == r);
            assert(isqrt_spec(n) * isqrt_spec(n) <= n);
            assert(n < (isqrt_spec(n) + 1) * (isqrt_spec(n) + 1));
        }
    }
}

pub proof fn lemma_isqrt_unique(n: nat, r: nat)
    requires
        r * r <= n,
        n < (r + 1) * (r + 1),
    ensures
        r == isqrt_spec(n),
{
    lemma_isqrt_props(n);
    let s = isqrt_spec(n);
    if r < s {
        assert((r + 1) * (r + 1) <= s * s) by (nonlinear_arith)
            requires
                r + 1 <= s,
        ;
    } else if s < r {
        assert((s + 1) * (s + 1) <= r * r) by (nonlinear_arith)
            requires
                s + 1 <= r,
        ;
    }
}

/// The circle constant pi, in raw units (rounded down).
pub const PI_FX: i64 = 13493037704;

/// Twice pi, in raw units (rounded down).
pub const TAU_FX: i64 = 26986075408;

/// Rational cosine approximation on one quadrant (Bhaskara's), accurate
/// for `y` in `[0, pi/2]`.
pub open spec fn fx_cos_quadrant(y: int) -> int {
    let y2 = fx_mul(y, y);
    let pi2 = fx_mul(PI_FX as int, PI_FX as int);
    fx_div(fx_sub(pi2, fx_mul(4 * SCALE, y2)), fx_add(pi2, y2))
}

/// Cosine on `[0, tau]`, reduced to the first quadrant by the symmetries
/// `cos x == cos (tau - x)` and `cos x == -cos (pi - x)`.
pub open spec fn fx_cos(x: int) -> int {
    let xr = if x > PI_FX as int {
        fx_sub(TAU_FX as int, x)
    } else {
        x
    };
    let half_pi = fx_div(PI_FX as int, Fx::spec_from_int(2));
    if xr > half_pi {
        -fx_cos_quadrant(fx_sub(PI_FX as int, xr))
    } else {
        fx_cos_quadrant(xr)
    }
}

/// A fixed-point scalar: the real value `bits / SCALE`.
#[derive(Clone, Copy, Debug, PartialEq, Eq, Structural)]
pub struct Fx {
    bits: i64,
}

impl Fx {
    /// The raw unit count, the value every contract speaks of.
    pub closed spec fn v(self) -> int {
        self.bits as int
    }

    #[verifier::type_invariant]
    pub closed spec fn wf(self) -> bool {
        -(CAP as int) <= self.bits as int <= CAP as int
    }

    pub open spec fn spec_from_int(n: int) -> int {
        n * SCALE
    }

    /// The scalar zero.
    pub fn zero() -> (r: Fx)
        ensures
            r.v() == 0,
    {
        Fx { bits: 0 }
    }

    /// The scalar one.
    pub fn one() -> (r: Fx)
        ensures
            r.v() == SCALE as int,
    {
        Fx { bits: SCALE }
    }

    /// The whole number `n` as a scalar.
    pub fn from_int(n: i64) -> (r: Fx)
        requires
            -0x4000_0000 <= n <= 0x4000_0000,
        ensures
            r.v() == Fx::spec_from_int(n as int),
    {
        Fx { bits: n * SCALE }
    }

    /// The fraction `num / den` as a scalar.
    pub fn from_ratio(num: i64, den: i64) -> (r: Fx)
        requires
            -0x4000_0000 <= num <= 0x4000_0000,
            -0x4000_0000 <= den <= 0x4000_0000,
        ensures
            r.v() == fx_div(Fx::spec_from_int(num as int), Fx::spec_from_int(den as int)),
    {
        Fx::from_int(num).div(Fx::from_int(den))
    }

    /// The raw unit count, for callers outside the verified world.
    pub fn raw(self) -> (r: i64)
        ensures
            r as int == self.v(),
    {
        self.bits
    }

    /// A scalar from a raw unit count, clamped into range.
    pub fn from_raw(bits: i64) -> (r: Fx)
        ensures
            r.v() == sat(bits as int),
    {
        if bits > CAP {
            Fx { bits: CAP }
        } else if bits < -CAP {
            Fx { bits: -CAP }
        } else {
            Fx { bits }
        }
    }

    pub fn add(self, o: Fx) -> (r: Fx)
        ensures
            r.v() == fx_add(self.v(), o.v()),
    {
        proof {
            use_type_invariant(self);
            use_type_invariant(o);
        }
        let s: i128 = (self.bits as i128) + (o.bits as i128);
        if s > CAP as i128 {
            Fx { bits: CAP }
        } else if s < -(CAP as i128) {
            Fx { bits: -CAP }
        } else {
            Fx { bits: s as i64 }
        }
    }

    pub fn sub(self, o: Fx) -> (r: Fx)
        ensures
            r.v() == fx_sub(self.v(), o.v()),
    {
        self.add(o.neg())
    }

    pub fn neg(self) -> (r: Fx)
        ensures
            r.v() == -self.v(),
    {
        proof {
            use_type_invariant(self);
        }
        Fx { bits: -self.bits }
    }

    pub fn abs(self) -> (r: Fx)
        ensures
            r.v() == abs_i(self.v()),
    {
        proof {
            use_type_invariant(self);
        }
        if self.bits < 0 {
            Fx { bits: -self.bits }
        } else {
            self
        }
    }

    pub fn mul(self, o: Fx) -> (r: Fx)
        ensures
            r.v() == fx_mul(self.v(), o.v()),
    {
        proof {
            use_type_invariant(self);
            use_type_invariant(o);
            assert((self.bits as int) * (o.bits as int) <= (CAP as int) * (CAP as int)
                && (self.bits as int) * (o.bits as int) >= -((CAP as int) * (CAP as int)))
                by (nonlinear_arith)
                requires
                    -(CAP as int) <= self.bits as int <= CAP as int,
                    -(CAP as int) <= o.bits as int <= CAP as int,
            ;
        }
        let p: i128 = (self.bits as i128) * (o.bits as i128);
        let neg: bool = p < 0;
        let m: u128 = if neg {
            (-p) as u128
        } else {
            p as u128
        };
        assert(m as int == abs_i(self.v() * o.v()));
        let q: u128 = m / (SCALE as u128);
        assert(q as int == abs_i(self.v() * o.v()) / (SCALE as int));
        let qc: u128 = if q > CAP as u128 {
            CAP as u128
        } else {
            q
        };
        let bits: i64 = if neg {
            -(qc as i64)
        } else {
            qc as i64
        };
        proof {
            let t = tdiv(self.v() * o.v(), SCALE as int);
            if neg {
                assert(t == -(q as int));
            } else {
                assert(t == q as int);
            }
            assert(bits as int == sat(t));
        }
        Fx { bits }
    }

    pub fn div(self, o: Fx) -> (r: Fx)
        ensures
            r.v() == fx_div(self.v(), o.v()),
    {
        proof {
            use_type_invariant(self);
            use_type_invariant(o);
        }
        proof {
            assert(SCALE == 0x1_0000_0000i64);
        }
        if o.bits == 0 {
            if self.bits > 0 {
                Fx { bits: CAP }
            } else if self.bits < 0 {
                Fx { bits: -CAP }
            } else {
                Fx { bits: 0 }
            }
        } else {
            let num: i128 = (self.bits as i128) * (SCALE as i128);
            let neg: bool = (self.bits < 0) != (o.bits < 0);
            let mn: u128 = if num < 0 {
                (-num) as u128
            } else {
                num as u128
            };
            let mb: u128 = if o.bits < 0 {
                (-(o.bits as i128)) as u128
            } else {
                o.bits as u128
            };
            assert(mn as int == abs_i(self.v() * SCALE));
            assert(mb as int == abs_i(o.v()));
            let q: u128 = mn / mb;
            let qc: u128 = if q > CAP as u128 {
                CAP as u128
            } else {
                q
            };
            let bits: i64 = if neg {
                -(qc as i64)
            } else {
                qc as i64
            };
            proof {
                let t = tdiv(self.v() * SCALE, o.v());
                if neg {
                    assert(t == -(q as int));
                } else {
                    assert(t == q as int);
                }
                assert(bits as int == sat(t));
            }
            Fx { bits }
        }
    }

    pub fn sqrt(self) -> (r: Fx)
        ensures
            r.v() == fx_sqrt(self.v()),
    {
        proof {
            use_type_invariant(self);
        }
        if self.bits <= 0 {
            Fx { bits: 0 }
        } else {
            let n: u128 = (self.bits as u128) * (SCALE as u128);
            assert(n as int == self.v() * SCALE);
            let r: u128 = isqrt_u128(n);
            proof {
                lemma_isqrt_props(n as nat);
                assert(isqrt_spec(n as nat) <= 0x8000_0000_0000) by {
                    let s = isqrt_spec(n as nat);
                    if s > 0x8000_0000_0000 {
                        assert(s * s > n as nat) by (nonlinear_arith)
                            requires
                                s > 0x8000_0000_0000,
                                n as int <= 0x4000_0000_0000_0000_0000_0000,
                        ;
                    }
                }
            }
            Fx { bits: r as i64 }
        }
    }

    /// Cosine by the rational approximation `fx_cos`, meant for angles in
    /// `[0, tau]`.
    pub fn cos(self) -> (r: Fx)
        ensures
            r.v() == fx_cos(self.v()),
    {
        let pi = Fx::from_raw(PI_FX);
        let tau = Fx::from_raw(TAU_FX);
        let xr = if pi.lt(self) {
            tau.sub(self)
        } else {
            self
        };
        let half_pi = pi.div(Fx::from_int(2));
        if half_pi.lt(xr) {
            Fx::cos_quadrant(pi.sub(xr)).neg()
        } else {
            Fx::cos_quadrant(xr)
        }
    }

    fn cos_quadrant(y: Fx) -> (r: Fx)
        ensures
            r.v() == fx_cos_quadrant(y.v()),
    {
        let pi = Fx::from_raw(PI_FX);
        let y2 = y.mul(y);
        let pi2 = pi.mul(pi);
        let four = Fx::from_int(4);
        pi2.sub(four.mul(y2)).div(pi2.add(y2))
    }

    pub fn lt(self, o: Fx) -> (r: bool)
        ensures
            r == (self.v() < o.v()),
    {
        self.bits < o.bits
    }

    pub fn le(self, o: Fx) -> (r: bool)
        ensures
            r == (self.v() <= o.v()),
    {
        self.bits <= o.bits
    }

    pub fn is_zero(self) -> (r: bool)
        ensures
            r == (self.v() == 0),
    {
        self.bits == 0
    }

    /// The smaller of two scalars.
    pub fn min(self, o: Fx) -> (r: Fx)
        ensures
            r.v() == if self.v() <= o.v() {
                self.v()
            } else {
                o.v()
            },
    {
        if self.bits <= o.bits {
            self
        } else {
            o
        }
    }

    /// The larger of two scalars.
    pub fn max(self, o: Fx) -> (r: Fx)
        ensures
            r.v() == if self.v() >= o.v() {
                self.v()
            } else {
                o.v()
            },
    {
        if self.bits >= o.bits {
            self
        } else {
            o
        }
    }

    /// `self` limited to the closed range `[lo, hi]`.
    pub fn clamp(self, lo: Fx, hi: Fx) -> (r: Fx)
        requires
            lo.v() <= hi.v(),
        ensures
            r.v() == if self.v() < lo.v() {
                lo.v()
            } else if self.v() > hi.v() {
                hi.v()
            } else {
                self.v()
            },
    {
        if self.bits < lo.bits {
            lo
        } else if self.bits > hi.bits {
            hi
        } else {
            self
        }
    }

    /// The whole part of the scalar, truncated toward zero.
    pub fn trunc(self) -> (r: i64)
        ensures
            r as int == tdiv(self.v(), SCALE as int),
    {
        proof {
            use_type_invariant(self);
        }
        if self.bits < 0 {
            -((-self.bits) / SCALE)
        } else {
            self.bits / SCALE
        }
    }
}

fn isqrt_u128(n: u128) -> (r: u128)
    requires
        n <= 0x4000_0000_0000_0000_0000_0000,
    ensures
        r as nat == isqrt_spec(n as nat),
        r <= 0x8000_0000_0000,
{
    let mut lo: u128 = 0;
    let mut hi: u128 = 0x8000_0000_0000;
    proof {
        assert((0x8000_0000_0000u128 + 1) * (0x8000_0000_0000u128 + 1) > n) by (nonlinear_arith)
            requires
                n <= 0x4000_0000_0000_0000_0000_0000,
        ;
    }
    while lo < hi
        invariant
            lo <= hi <= 0x8000_0000_0000,
            lo * lo <= n as nat,
            (n as nat) < (hi + 1) * (hi + 1),
        decreases hi - lo,
    {
        let mid: u128 = lo + (hi - lo + 1) / 2;
        assert(lo < mid <= hi);
        assert(mid * mid <= 0x4000_0000_0000_0000_0000_0000 * 4) by (nonlinear_arith)
            requires
                mid <= 0x8000_0000_0000u128,
        ;
        if mid * mid <= n {
            lo = mid;
        } else {
            hi = mid - 1;
        }
    }
    proof {
        lemma_isqrt_unique(n as nat, lo as nat);
    }
    lo
}

} // verus!
