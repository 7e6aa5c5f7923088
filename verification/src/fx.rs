//! The crate's scalar: a signed binary fixed-point number.
//!
//! A [`Fix`] stores an `i64` raw value and denotes `raw / 2^46`.  The raw
//! value is kept within `[-2^62, 2^62]`, so the representable range is about
//! `[-65536, 65536]` with a resolution of `2^-46`.  Arithmetic is total:
//! products and quotients are truncated toward zero and every result is
//! clamped (saturated) into the raw range.  Each operation's contract states
//! the exact raw value it returns, so computations built from these
//! operations are deterministic functions that the contracts pin down.

use vstd::prelude::*;

verus! {

/// Number of fractional bits.
pub const FRAC_BITS: u32 = 46;

/// The unit: `1.0` is stored as this raw value (`2^46`).
pub const SCALE: i64 = 0x400000000000;

/// Largest allowed magnitude of a raw value (`2^62`).
pub const SAT_RAW: i64 = 0x4000000000000000;

/// Magnitude of an integer.
pub open spec fn mag(x: int) -> int {
    if x < 0 {
        -x
    } else {
        x
    }
}

/// Clamp an integer into the allowed raw range.
pub open spec fn sat(v: int) -> int {
    if v > SAT_RAW as int {
        SAT_RAW as int
    } else if v < -(SAT_RAW as int) {
        -(SAT_RAW as int)
    } else {
        v
    }
}

/// Division truncated toward zero, for a nonzero divisor.
pub open spec fn tdiv(x: int, d: int) -> int
    recommends
        d != 0,
{
    let q = mag(x) / mag(d);
    if (x < 0) != (d < 0) {
        -q
    } else {
        q
    }
}

/// Raw value of a saturating sum.
#[verifier::opaque]
pub open spec fn fadd(a: int, b: int) -> int {
    sat(a + b)
}

/// Raw value of a saturating difference.
#[verifier::opaque]
pub open spec fn fsub(a: int, b: int) -> int {
    sat(a - b)
}

/// Raw value of a saturating, truncating product.
#[verifier::opaque]
pub open spec fn fmul(a: int, b: int) -> int {
    sat(tdiv(a * b, SCALE as int))
}

/// Raw value of a saturating, truncating quotient.  Division by zero
/// saturates to the sign of the dividend, the analogue of an infinity.
#[verifier::opaque]
pub open spec fn fdiv(a: int, b: int) -> int {
    if b == 0 {
        if a > 0 {
            SAT_RAW as int
        } else if a < 0 {
            -(SAT_RAW as int)
        } else {
            0
        }
    } else {
        sat(tdiv(a * (SCALE as int), b))
    }
}

/// Two scalars with the same raw value are the same value.
pub proof fn lemma_eq_raw_eq(x: Fix, y: Fix)
    requires
        x@ == y@,
    ensures
        x == y,
{
}

/// The sequence of raw values of a sequence of fixed-point scalars.
pub open spec fn raws(s: Seq<Fix>) -> Seq<int> {
    Seq::new(s.len(), |i: int| s[i]@)
}

/// The square-root relation: `r` is the raw value of the fixed-point floor
/// square root of the value with raw representation `v`.  The two
/// inequalities pin `r` down uniquely; a negative `v` has root zero.
pub open spec fn sqrt_rel(v: int, r: int) -> bool {
    if v >= 0 {
        r >= 0 && r * r <= v * (SCALE as int) && (r + 1) * (r + 1) > v * (SCALE as int)
    } else {
        r == 0
    }
}

/// Raw value of the fixed-point floor square root, as a function: the unique
/// value related to `v` by [`sqrt_rel`].
#[verifier::opaque]
pub open spec fn fsqrt(v: int) -> int {
    choose|r: int| sqrt_rel(v, r)
}

/// [`sqrt_rel`] pins its root down: any related value equals [`fsqrt`].
pub proof fn lemma_sqrt_rel_is_fsqrt(v: int, r: int)
    requires
        sqrt_rel(v, r),
    ensures
        r == fsqrt(v),
{
    reveal(fsqrt);
    assert(sqrt_rel(v, fsqrt(v)));
    let q = fsqrt(v);
    if v >= 0 {
        assert(r == q) by (nonlinear_arith)
            requires
                r >= 0,
                q >= 0,
                r * r <= v * (SCALE as int),
                (r + 1) * (r + 1) > v * (SCALE as int),
                q * q <= v * (SCALE as int),
                (q + 1) * (q + 1) > v * (SCALE as int),
        ;
    }
}

/// A fixed-point scalar; `raw` denotes `raw / 2^46`.
#[derive(Clone, Copy, PartialEq, Eq, Structural, Debug)]
pub struct Fix {
    raw: i64,
}

impl View for Fix {
    type V = int;

    closed spec fn view(&self) -> int {
        self.raw as int
    }
}

impl Fix {
    /// The raw value always stays within the saturation range.
    #[verifier::type_invariant]
    pub open spec fn inv(self) -> bool {
        -(SAT_RAW as int) <= self@ <= SAT_RAW as int
    }

    /// Zero.
    pub fn zero() -> (r: Fix)
        ensures
            r@ == 0,
    {
        Fix { raw: 0 }
    }

    /// One.
    pub fn one() -> (r: Fix)
        ensures
            r@ == SCALE as int,
    {
        Fix { raw: SCALE }
    }

    /// Two.
    pub fn two() -> (r: Fix)
        ensures
            r@ == 2 * (SCALE as int),
    {
        Fix { raw: 2 * SCALE }
    }

    /// One half.
    pub fn half() -> (r: Fix)
        ensures
            r@ == (SCALE as int) / 2,
    {
        Fix { raw: SCALE / 2 }
    }

    /// The smallest positive value, one quantum (`2^-46`); the analogue of a
    /// machine epsilon.
    pub fn epsilon() -> (r: Fix)
        ensures
            r@ == 1,
    {
        Fix { raw: 1 }
    }

    /// The largest representable value.
    pub fn max_value() -> (r: Fix)
        ensures
            r@ == SAT_RAW as int,
    {
        Fix { raw: SAT_RAW }
    }

    /// The smallest (most negative) representable value.
    pub fn min_value() -> (r: Fix)
        ensures
            r@ == -(SAT_RAW as int),
    {
        Fix { raw: -SAT_RAW }
    }

    /// The value `i`, saturated into range.
    pub fn from_int(i: i64) -> (r: Fix)
        ensures
            r@ == sat(i * (SCALE as int)),
    {
        proof {
            lemma_mag_mul_le(i as int, SCALE as int, 0x8000000000000000, SCALE as int);
        }
        let p: i128 = (i as i128) * (SCALE as i128);
        Fix { raw: sat_i128(p) }
    }

    /// The value `n / d`, truncated to the nearest quantum toward zero and
    /// saturated into range; `d == 0` saturates to the sign of `n`.
    pub fn from_ratio(n: i64, d: i64) -> (r: Fix)
        ensures
            r@ == fdiv(n * (SCALE as int), d * (SCALE as int)),
            d != 0 ==> r@ == sat(tdiv(n * (SCALE as int), d as int)),
            d == 0 && n > 0 ==> r@ == SAT_RAW as int,
            d == 0 && n < 0 ==> r@ == -(SAT_RAW as int),
            d == 0 && n == 0 ==> r@ == 0,
    {
        proof {
            reveal(fdiv);
        }
        if d == 0 {
            if n > 0 {
                Fix { raw: SAT_RAW }
            } else if n < 0 {
                Fix { raw: -SAT_RAW }
            } else {
                Fix { raw: 0 }
            }
        } else {
            proof {
                lemma_mag_mul_le(n as int, SCALE as int, 0x8000000000000000, SCALE as int);
            }
            let num: i128 = (n as i128) * (SCALE as i128);
            let q = tdiv_i128(num, d as i128);
            proof {
                lemma_from_ratio_scale(n as int, d as int);
            }
            Fix { raw: sat_i128(q) }
        }
    }

    /// A value from its raw representation, saturated into range.
    pub fn from_raw(raw: i64) -> (r: Fix)
        ensures
            r@ == sat(raw as int),
    {
        if raw > SAT_RAW {
            Fix { raw: SAT_RAW }
        } else if raw < -SAT_RAW {
            Fix { raw: -SAT_RAW }
        } else {
            Fix { raw }
        }
    }

    /// The raw representation.
    pub fn raw(self) -> (r: i64)
        ensures
            r as int == self@,
    {
        self.raw
    }

    /// Saturating addition.
    pub fn add(self, o: Fix) -> (r: Fix)
        ensures
            r@ == fadd(self@, o@),
    {
        proof {
            reveal(fadd);
            use_type_invariant(self);
            use_type_invariant(o);
        }
        let s: i128 = (self.raw as i128) + (o.raw as i128);
        Fix { raw: sat_i128(s) }
    }

    /// Saturating subtraction.
    pub fn sub(self, o: Fix) -> (r: Fix)
        ensures
            r@ == fsub(self@, o@),
    {
        proof {
            reveal(fsub);
            use_type_invariant(self);
            use_type_invariant(o);
        }
        let s: i128 = (self.raw as i128) - (o.raw as i128);
        Fix { raw: sat_i128(s) }
    }

    /// Negation (always exact: the raw range is symmetric).
    pub fn neg(self) -> (r: Fix)
        ensures
            r@ == -self@,
    {
        proof {
            use_type_invariant(self);
        }
        Fix { raw: -self.raw }
    }

    /// Saturating, truncating multiplication.
    pub fn mul(self, o: Fix) -> (r: Fix)
        ensures
            r@ == fmul(self@, o@),
    {
        proof {
            reveal(fmul);
            use_type_invariant(self);
            use_type_invariant(o);
            lemma_mag_mul_le(self.raw as int, o.raw as int, SAT_RAW as int, SAT_RAW as int);
        }
        let p: i128 = (self.raw as i128) * (o.raw as i128);
        let q = tdiv_i128(p, SCALE as i128);
        Fix { raw: sat_i128(q) }
    }

    /// Saturating, truncating division; division by zero saturates to the
    /// sign of the dividend.
    pub fn div(self, o: Fix) -> (r: Fix)
        ensures
            r@ == fdiv(self@, o@),
    {
        proof {
            reveal(fdiv);
            use_type_invariant(self);
            use_type_invariant(o);
        }
        if o.raw == 0 {
            if self.raw > 0 {
                Fix { raw: SAT_RAW }
            } else if self.raw < 0 {
                Fix { raw: -SAT_RAW }
            } else {
                Fix { raw: 0 }
            }
        } else {
            proof {
                lemma_mag_mul_le(self.raw as int, SCALE as int, SAT_RAW as int, SCALE as int);
            }
            let num: i128 = (self.raw as i128) * (SCALE as i128);
            let q = tdiv_i128(num, o.raw as i128);
            Fix { raw: sat_i128(q) }
        }
    }

    /// Magnitude (always exact: the raw range is symmetric).
    pub fn abs(self) -> (r: Fix)
        ensures
            r@ == mag(self@),
    {
        proof {
            use_type_invariant(self);
        }
        if self.raw < 0 {
            Fix { raw: -self.raw }
        } else {
            self
        }
    }

    /// The smaller of two values.
    pub fn min(self, o: Fix) -> (r: Fix)
        ensures
            r@ == if self@ <= o@ {
                self@
            } else {
                o@
            },
    {
        if self.raw <= o.raw {
            self
        } else {
            o
        }
    }

    /// The larger of two values.
    pub fn max(self, o: Fix) -> (r: Fix)
        ensures
            r@ == if self@ >= o@ {
                self@
            } else {
                o@
            },
    {
        if self.raw >= o.raw {
            self
        } else {
            o
        }
    }

    /// `self` clamped into `[lo, hi]`.
    pub fn clamp(self, lo: Fix, hi: Fix) -> (r: Fix)
        requires
            lo@ <= hi@,
        ensures
            r@ == if self@ < lo@ {
                lo@
            } else if self@ > hi@ {
                hi@
            } else {
                self@
            },
    {
        if self.raw < lo.raw {
            lo
        } else if self.raw > hi.raw {
            hi
        } else {
            self
        }
    }

    /// The floor of the square root, in fixed-point: the result is the
    /// largest representable value whose square does not exceed `self`.
    /// A negative argument (no real root) gives zero.
    pub fn sqrt(self) -> (r: Fix)
        ensures
            sqrt_rel(self@, r@),
            r@ == fsqrt(self@),
    {
        proof {
            use_type_invariant(self);
        }
        if self.raw < 0 {
            proof {
                lemma_sqrt_rel_is_fsqrt(self@, 0);
            }
            return Fix { raw: 0 };
        }
        proof {
            assert((self.raw as u128) * (SCALE as u128) <= 0x1000000000000000000000000000u128)
                by (nonlinear_arith)
                requires
                    0 <= self.raw as u128 <= 0x4000000000000000u128,
            ;
        }
        let v: u128 = (self.raw as u128) * (SCALE as u128);
        let s = isqrt_u128(v);
        proof {
            assert(s <= 0x40000000000000u128) by (nonlinear_arith)
                requires
                    s * s <= v,
                    v <= 0x1000000000000000000000000000u128,
            ;
            lemma_sqrt_rel_is_fsqrt(self@, s as int);
        }
        Fix { raw: s as i64 }
    }

    /// Whether the value is exactly zero.
    pub fn is_zero(self) -> (r: bool)
        ensures
            r == (self@ == 0),
    {
        self.raw == 0
    }

    /// Strict less-than.
    pub fn lt(self, o: Fix) -> (r: bool)
        ensures
            r == (self@ < o@),
    {
        self.raw < o.raw
    }

    /// Less-than-or-equal.
    pub fn le(self, o: Fix) -> (r: bool)
        ensures
            r == (self@ <= o@),
    {
        self.raw <= o.raw
    }

    /// Strict greater-than.
    pub fn gt(self, o: Fix) -> (r: bool)
        ensures
            r == (self@ > o@),
    {
        self.raw > o.raw
    }

    /// Greater-than-or-equal.
    pub fn ge(self, o: Fix) -> (r: bool)
        ensures
            r == (self@ >= o@),
    {
        self.raw >= o.raw
    }
}

/// Magnitudes multiply: a bound on each factor bounds the product.
pub proof fn lemma_mag_mul_le(a: int, b: int, ab: int, bb: int)
    requires
        mag(a) <= ab,
        mag(b) <= bb,
    ensures
        mag(a * b) <= ab * bb,
    decreases 0int,
{
    assert(mag(a * b) <= ab * bb) by (nonlinear_arith)
        requires
            mag(a) <= ab,
            mag(b) <= bb,
    ;
}

/// Clamp an `i128` into the raw range.
fn sat_i128(v: i128) -> (r: i64)
    ensures
        r as int == sat(v as int),
{
    if v > (SAT_RAW as i128) {
        SAT_RAW
    } else if v < -(SAT_RAW as i128) {
        -SAT_RAW
    } else {
        v as i64
    }
}

/// Division of `i128` values truncated toward zero, through unsigned
/// division of the magnitudes.
fn tdiv_i128(x: i128, d: i128) -> (r: i128)
    requires
        d != 0,
        x > i128::MIN,
        d > i128::MIN,
    ensures
        r as int == tdiv(x as int, d as int),
{
    let nx: u128 = if x < 0 {
        (-x) as u128
    } else {
        x as u128
    };
    let nd: u128 = if d < 0 {
        (-d) as u128
    } else {
        d as u128
    };
    let q: u128 = nx / nd;
    proof {
        assert(q <= nx) by (nonlinear_arith)
            requires
                nd >= 1,
                q == nx / nd,
        ;
    }
    if (x < 0) != (d < 0) {
        -(q as i128)
    } else {
        q as i128
    }
}

/// Floor of the integer square root, by bisection.
fn isqrt_u128(v: u128) -> (r: u128)
    ensures
        r * r <= v,
        (r + 1) * (r + 1) > v,
{
    let mut lo: u128 = 0;
    let mut hi: u128 = 0x10000000000000000;
    proof {
        assert(hi * hi > v) by (nonlinear_arith)
            requires
                hi == 0x10000000000000000u128,
                v <= u128::MAX,
        ;
    }
    while hi - lo > 1
        invariant
            lo * lo <= v,
            hi * hi > v,
            lo < hi <= 0x10000000000000000u128,
        decreases hi - lo,
    {
        let mid = lo + (hi - lo) / 2;
        proof {
            assert(mid * mid < 0x100000000000000000000000000000000) by (nonlinear_arith)
                requires
                    mid < 0x10000000000000000u128,
            ;
        }
        if mid * mid <= v {
            lo = mid;
        } else {
            hi = mid;
        }
    }
    lo
}

/// Scaling the numerator and denominator of a truncated quotient by the
/// unit leaves the quotient unchanged.
pub proof fn lemma_from_ratio_scale(n: int, d: int)
    requires
        d != 0,
    ensures
        fdiv(n * (SCALE as int), d * (SCALE as int)) == sat(tdiv(n * (SCALE as int), d)),
{
    reveal(fdiv);
    let s = SCALE as int;
    let a = n * s;
    assert(d * s != 0 && mag(a * s) == mag(a) * s && mag(d * s) == mag(d) * s && ((a * s < 0) != (d
        * s < 0)) == ((a < 0) != (d < 0))) by (nonlinear_arith)
        requires
            d != 0,
            s > 0,
    ;
    vstd::arithmetic::div_mod::lemma_div_multiples_vanish_quotient(s, mag(a), mag(d));
    assert(mag(a) / mag(d) == (s * mag(a)) / (s * mag(d)));
    assert(s * mag(a) == mag(a) * s && s * mag(d) == mag(d) * s) by (nonlinear_arith);
}

} // verus!
