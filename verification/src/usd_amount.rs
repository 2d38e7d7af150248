//! Currency type with exact decimal arithmetic and IRS rounding rules.
//!
//! A [`UsdAmount`] is a decimal number `mantissa * 10^-scale` dollars.  All
//! arithmetic (addition, subtraction, multiplication by a rate) is exact;
//! precision is only lost through the explicit rounding operations.  The view
//! of an amount is its value expressed in units of `10^-SCALE_MAX` dollars
//! (an integer), which is what every contract in this crate speaks of.

use vstd::prelude::*;
use vstd::string::StringExecFns;

verus! {

/// Integer powers of ten, the denominators of decimal scaling.
pub open spec fn pow10(e: nat) -> int
    decreases e,
{
    if e == 0 {
        1
    } else {
        10 * pow10((e - 1) as nat)
    }
}

pub proof fn lemma_pow10_pos(e: nat)
    ensures
        pow10(e) >= 1,
    decreases e,
{
    if e > 0 {
        lemma_pow10_pos((e - 1) as nat);
    }
}

pub proof fn lemma_pow10_adds(a: nat, b: nat)
    ensures
        pow10(a + b) == pow10(a) * pow10(b),
    decreases a,
{
    if a == 0 {
    } else {
        lemma_pow10_adds((a - 1) as nat, b);
        assert(pow10(a + b) == 10 * pow10((a + b - 1) as nat));
        assert(10 * (pow10((a - 1) as nat) * pow10(b)) == (10 * pow10((a - 1) as nat)) * pow10(b))
            by (nonlinear_arith);
    }
}

pub proof fn lemma_pow10_increases(a: nat, b: nat)
    requires
        a <= b,
    ensures
        pow10(a) <= pow10(b),
{
    lemma_pow10_adds(a, (b - a) as nat);
    lemma_pow10_pos((b - a) as nat);
    lemma_pow10_pos(a);
    assert(pow10(a) * 1 <= pow10(a) * pow10((b - a) as nat)) by (nonlinear_arith)
        requires
            pow10(a) >= 1,
            pow10((b - a) as nat) >= 1,
    ;
}

/// Numeric values of the powers of ten this module reasons with.
pub proof fn lemma_pow10_values()
    ensures
        pow10(0) == 1,
        pow10(1) == 10,
        pow10(2) == 100,
        pow10(3) == 1000,
        pow10(4) == 10000,
        pow10(10) == 0x2540BE400,
        pow10(12) == 1000000000000,
        pow10(24) == 1000000000000000000000000,
        pow10(30) == 1000000000000000000000000000000,
        pow10(36) == 1000000000000000000000000000000000000,
{
    reveal_with_fuel(pow10, 38);
}

/// The largest scale (number of decimal places) an amount may carry.
pub const SCALE_MAX: u32 = 12;

/// Bound on the magnitude of an amount's view; large enough for any sum of
/// realistic dollar figures, small enough that every intermediate fits an
/// `i128`.
pub open spec fn usd_bound() -> int {
    pow10(36)
}

/// Executable powers of ten up to `10^36`, matching [`pow10`].
pub fn pow10_i128(e: u32) -> (r: i128)
    requires
        e <= 36,
    ensures
        r == pow10(e as nat),
        r >= 1,
{
    let mut r: i128 = 1;
    let mut i: u32 = 0;
    while i < e
        invariant
            i <= e <= 36,
            r == pow10(i as nat),
            r >= 1,
        decreases e - i,
    {
        proof {
            lemma_pow10_increases((i + 1) as nat, 36);
            lemma_pow10_pos(i as nat);
            lemma_pow10_values();
        }
        r = r * 10;
        i = i + 1;
    }
    r
}

/// The zero amount, as a value.
pub open spec fn zero_usd() -> UsdAmount {
    UsdAmount { mantissa: 0, scale: 0 }
}

/// A USD currency amount: `mantissa * 10^-scale` dollars, held exactly.
#[derive(Debug, Clone, Copy, PartialEq, Eq, Structural)]
pub struct UsdAmount {
    /// Numerator of the amount.
    pub mantissa: i128,
    /// Number of decimal places; the amount is `mantissa / 10^scale` dollars.
    pub scale: u32,
}

impl View for UsdAmount {
    type V = int;

    /// The value of the amount in units of `10^-SCALE_MAX` dollars.
    open spec fn view(&self) -> int {
        self.mantissa * pow10((SCALE_MAX - self.scale) as nat)
    }
}

impl UsdAmount {
    /// Well-formedness: the scale is within range and the value is bounded.
    pub open spec fn wf(self) -> bool {
        self.scale <= SCALE_MAX && -usd_bound() <= self@ <= usd_bound()
    }

    /// Zero dollars.
    pub fn zero() -> (r: UsdAmount)
        ensures
            r@ == 0,
            r.wf(),
            r.mantissa == 0,
            r.scale == 0,
    {
        proof {
            lemma_pow10_pos(36);
        }
        UsdAmount { mantissa: 0, scale: 0 }
    }

    /// Create from a mantissa and a decimal scale: `mantissa / 10^scale` dollars.
    pub fn new(mantissa: i128, scale: u32) -> (r: UsdAmount)
        requires
            scale <= SCALE_MAX,
            -usd_bound() <= mantissa * pow10((SCALE_MAX - scale) as nat) <= usd_bound(),
        ensures
            r.mantissa == mantissa,
            r.scale == scale,
            r.wf(),
    {
        UsdAmount { mantissa, scale }
    }

    /// Create from a mantissa and a decimal scale, checking the bounds at
    /// run time: `Some` exactly when the amount is representable.
    pub fn try_new(mantissa: i128, scale: u32) -> (r: Option<UsdAmount>)
        ensures
            match r {
                Some(a) => a.mantissa == mantissa && a.scale == scale && a.wf(),
                None => !(scale <= SCALE_MAX && -usd_bound() <= mantissa * pow10(
                    (SCALE_MAX - scale) as nat,
                ) <= usd_bound()),
            },
    {
        if scale > SCALE_MAX {
            return None;
        }
        let f = pow10_i128(SCALE_MAX - scale);
        let cap = pow10_i128(36);
        let limit = cap / f;
        proof {
            lemma_pow10_values();
            let fi = pow10((SCALE_MAX - scale) as nat);
            let m = mantissa as int;
            vstd::arithmetic::div_mod::lemma_fundamental_div_mod(usd_bound(), fi);
            vstd::arithmetic::div_mod::lemma_div_pos_is_pos(usd_bound(), fi);
            assert(limit as int * fi <= usd_bound() && (limit as int + 1) * fi > usd_bound())
                by (nonlinear_arith)
                requires
                    fi >= 1,
                    usd_bound() == fi * (limit as int) + usd_bound() % fi,
                    0 <= usd_bound() % fi < fi,
            ;
            if -limit <= mantissa <= limit {
                assert(-usd_bound() <= m * fi <= usd_bound()) by (nonlinear_arith)
                    requires
                        fi >= 1,
                        -(limit as int) <= m <= limit as int,
                        (limit as int) * fi <= usd_bound(),
                        limit as int >= 0,
                ;
            } else {
                assert(!(-usd_bound() <= m * fi <= usd_bound())) by (nonlinear_arith)
                    requires
                        fi >= 1,
                        m > limit as int || m < -(limit as int),
                        (limit as int + 1) * fi > usd_bound(),
                        limit as int >= 0,
                ;
            }
        }
        if mantissa > limit || mantissa < -limit {
            None
        } else {
            Some(UsdAmount { mantissa, scale })
        }
    }

    /// Create from a whole number of cents.
    pub fn from_cents(cents: i64) -> (r: UsdAmount)
        ensures
            r@ == cents * pow10((SCALE_MAX - 2) as nat),
            r.mantissa == cents as i128,
            r.scale == 2,
            r.wf(),
    {
        proof {
            lemma_from_small_scale_wf(cents as int, 2);
        }
        UsdAmount { mantissa: cents as i128, scale: 2 }
    }

    /// Create from a whole number of dollars.
    pub fn from_dollars(dollars: i64) -> (r: UsdAmount)
        ensures
            r@ == dollars * pow10(SCALE_MAX as nat),
            r.mantissa == dollars as i128,
            r.scale == 0,
            r.wf(),
    {
        proof {
            lemma_from_small_scale_wf(dollars as int, 0);
        }
        UsdAmount { mantissa: dollars as i128, scale: 0 }
    }

    /// Returns true if the amount is zero.
    pub fn is_zero(&self) -> (r: bool)
        requires
            self.wf(),
        ensures
            r == (self@ == 0),
    {
        proof {
            lemma_pow10_pos((SCALE_MAX - self.scale) as nat);
            lemma_mul_zero_iff(self.mantissa as int, pow10((SCALE_MAX - self.scale) as nat));
        }
        self.mantissa == 0
    }

    /// Returns true if the amount is strictly negative.
    pub fn is_negative(&self) -> (r: bool)
        requires
            self.wf(),
        ensures
            r == (self@ < 0),
    {
        proof {
            lemma_pow10_pos((SCALE_MAX - self.scale) as nat);
            lemma_mul_sign(self.mantissa as int, pow10((SCALE_MAX - self.scale) as nat));
        }
        self.mantissa < 0
    }

    /// Returns true if the amount is strictly positive.
    pub fn is_positive(&self) -> (r: bool)
        requires
            self.wf(),
        ensures
            r == (self@ > 0),
    {
        proof {
            lemma_pow10_pos((SCALE_MAX - self.scale) as nat);
            lemma_mul_sign(self.mantissa as int, pow10((SCALE_MAX - self.scale) as nat));
        }
        self.mantissa > 0
    }
}

impl UsdAmount {
    /// Returns true if `self` is strictly less than `other` as a value.
    pub fn lt(&self, other: &UsdAmount) -> (r: bool)
        requires
            self.wf(),
            other.wf(),
        ensures
            r == (self@ < other@),
    {
        let (ra, rb, t) = rescale_pair(self, other);
        proof {
            lemma_pow10_pos((SCALE_MAX - t) as nat);
            lemma_mul_pos_order(ra as int, rb as int, pow10((SCALE_MAX - t) as nat));
        }
        ra < rb
    }

    /// Returns true if `self` is at most `other` as a value.
    pub fn le(&self, other: &UsdAmount) -> (r: bool)
        requires
            self.wf(),
            other.wf(),
        ensures
            r == (self@ <= other@),
    {
        let (ra, rb, t) = rescale_pair(self, other);
        proof {
            lemma_pow10_pos((SCALE_MAX - t) as nat);
            lemma_mul_pos_order(ra as int, rb as int, pow10((SCALE_MAX - t) as nat));
        }
        ra <= rb
    }

    /// Returns true if `self` is strictly greater than `other` as a value.
    pub fn gt(&self, other: &UsdAmount) -> (r: bool)
        requires
            self.wf(),
            other.wf(),
        ensures
            r == (self@ > other@),
    {
        other.lt(self)
    }

    /// Returns true if `self` is at least `other` as a value.
    pub fn ge(&self, other: &UsdAmount) -> (r: bool)
        requires
            self.wf(),
            other.wf(),
        ensures
            r == (self@ >= other@),
    {
        other.le(self)
    }

    /// Exact addition.
    pub fn add(&self, other: &UsdAmount) -> (r: UsdAmount)
        requires
            self.wf(),
            other.wf(),
            -usd_bound() <= self@ + other@ <= usd_bound(),
        ensures
            r@ == self@ + other@,
            r.wf(),
            r.scale == if self.scale >= other.scale {
                self.scale
            } else {
                other.scale
            },
    {
        let (ra, rb, t) = rescale_pair(self, other);
        proof {
            lemma_pow10_values();
            lemma_pow10_pos((SCALE_MAX - t) as nat);
            lemma_sum_rescaled(ra as int, rb as int, pow10((SCALE_MAX - t) as nat), usd_bound());
        }
        UsdAmount { mantissa: ra + rb, scale: t }
    }

    /// Exact subtraction; the result may be negative.
    pub fn sub(&self, other: &UsdAmount) -> (r: UsdAmount)
        requires
            self.wf(),
            other.wf(),
            -usd_bound() <= self@ - other@ <= usd_bound(),
        ensures
            r@ == self@ - other@,
            r.wf(),
            r.scale == if self.scale >= other.scale {
                self.scale
            } else {
                other.scale
            },
    {
        let (ra, rb, t) = rescale_pair(self, other);
        proof {
            lemma_pow10_values();
            let f = pow10((SCALE_MAX - t) as nat);
            lemma_pow10_pos((SCALE_MAX - t) as nat);
            assert((-(rb as int)) * f == -((rb as int) * f)) by (nonlinear_arith);
            lemma_sum_rescaled(ra as int, -(rb as int), f, usd_bound());
        }
        UsdAmount { mantissa: ra - rb, scale: t }
    }

    /// Exact in-place addition.
    pub fn add_assign(&mut self, other: &UsdAmount)
        requires
            old(self).wf(),
            other.wf(),
            -usd_bound() <= old(self)@ + other@ <= usd_bound(),
        ensures
            final(self)@ == old(self)@ + other@,
            final(self).wf(),
    {
        *self = self.add(other);
    }

    /// Exact in-place subtraction.
    pub fn sub_assign(&mut self, other: &UsdAmount)
        requires
            old(self).wf(),
            other.wf(),
            -usd_bound() <= old(self)@ - other@ <= usd_bound(),
        ensures
            final(self)@ == old(self)@ - other@,
            final(self).wf(),
    {
        *self = self.sub(other);
    }

    /// Saturating subtraction: zero instead of a negative result.  Tax form
    /// lines never go below zero, and this is the operation that enforces it.
    pub fn saturating_sub(&self, other: &UsdAmount) -> (r: UsdAmount)
        requires
            self.wf(),
            other.wf(),
            self@ - other@ <= usd_bound(),
        ensures
            r@ == if self@ >= other@ {
                self@ - other@
            } else {
                0
            },
            r@ >= 0,
            r.wf(),
    {
        if self.gt(other) {
            self.sub(other)
        } else {
            UsdAmount::zero()
        }
    }

    /// Returns the smaller of the two amounts (by value).
    pub fn min(self, other: UsdAmount) -> (r: UsdAmount)
        requires
            self.wf(),
            other.wf(),
        ensures
            r@ == if self@ <= other@ {
                self@
            } else {
                other@
            },
            r == self || r == other,
            r.wf(),
    {
        if self.le(&other) {
            self
        } else {
            other
        }
    }

    /// Returns the larger of the two amounts (by value).
    pub fn max(self, other: UsdAmount) -> (r: UsdAmount)
        requires
            self.wf(),
            other.wf(),
        ensures
            r@ == if self@ >= other@ {
                self@
            } else {
                other@
            },
            r == self || r == other,
            r.wf(),
    {
        if self.ge(&other) {
            self
        } else {
            other
        }
    }

    /// Returns the absolute value.
    pub fn abs(&self) -> (r: UsdAmount)
        requires
            self.wf(),
        ensures
            r@ == if self@ >= 0 {
                self@
            } else {
                -self@
            },
            r.wf(),
            r.scale == self.scale,
    {
        proof {
            lemma_pow10_values();
            let f = pow10((SCALE_MAX - self.scale) as nat);
            lemma_pow10_pos((SCALE_MAX - self.scale) as nat);
            lemma_self_rescaled_bound(self.mantissa as int, self.scale);
            assert((-(self.mantissa as int)) * f == -((self.mantissa as int) * f))
                by (nonlinear_arith);
            lemma_mul_sign(self.mantissa as int, f);
        }
        if self.mantissa < 0 {
            UsdAmount { mantissa: -self.mantissa, scale: self.scale }
        } else {
            *self
        }
    }

    /// Exact multiplication by a [`Rate`]: adds the rate's four decimal
    /// places to the scale, so no precision is lost.
    pub fn multiply_rate(&self, rate: Rate) -> (r: UsdAmount)
        requires
            self.wf(),
            rate.wf(),
            self.scale + RATE_SCALE <= SCALE_MAX,
        ensures
            r@ * 10000 == self@ * rate.basis_points,
            r.wf(),
            r.scale == self.scale + RATE_SCALE,
            self@ >= 0 ==> r@ >= 0,
    {
        proof {
            lemma_pow10_values();
            lemma_multiply_rate_bounds(self.mantissa as int, self.scale, rate.basis_points as int);
        }
        UsdAmount {
            mantissa: self.mantissa * (rate.basis_points as i128),
            scale: self.scale + RATE_SCALE,
        }
    }
}

/// The quotient of `v` by `p`, rounded to the nearest integer with halves
/// away from zero.
pub open spec fn round_half_from_zero_q(v: int, p: int) -> int {
    if v >= 0 {
        (2 * v + p) / (2 * p)
    } else {
        -((2 * (-v) + p) / (2 * p))
    }
}

/// `v` rounded to the nearest multiple of `p`, halves away from zero.
pub open spec fn round_half_from_zero(v: int, p: int) -> int {
    round_half_from_zero_q(v, p) * p
}

/// The quotient of `v` by `p`, truncated toward zero.
pub open spec fn div_toward_zero(v: int, p: int) -> int {
    if v >= 0 {
        v / p
    } else {
        -((-v) / p)
    }
}

impl UsdAmount {
    /// Rounds to a whole number of dollars, halves away from zero: the IRS
    /// "round off cents to whole dollars" rule, where 50 cents rounds up.
    pub fn round_to_dollar(&self) -> (r: UsdAmount)
        requires
            self.wf(),
        ensures
            r@ == round_half_from_zero(self@, pow10(SCALE_MAX as nat)),
            r.wf(),
            r.scale == 0,
    {
        self.round_to_places(0)
    }

    /// Rounds to cents (two decimal places), halves away from zero.
    pub fn round_to_cents(&self) -> (r: UsdAmount)
        requires
            self.wf(),
        ensures
            r@ == round_half_from_zero(self@, pow10((SCALE_MAX - 2) as nat)),
            r.wf(),
            r.scale <= 2,
    {
        self.round_to_places(2)
    }

    /// Truncates to a whole number of dollars (toward zero).
    pub fn trunc_to_dollar(&self) -> (r: UsdAmount)
        requires
            self.wf(),
        ensures
            r@ == div_toward_zero(self@, pow10(SCALE_MAX as nat)) * pow10(SCALE_MAX as nat),
            r.wf(),
            r.scale == 0,
    {
        proof {
            lemma_pow10_values();
        }
        if self.scale == 0 {
            proof {
                lemma_div_exact_toward_zero(self.mantissa as int, pow10(SCALE_MAX as nat));
            }
            *self
        } else {
            let p = pow10_i128(self.scale) as u128;
            let (am, neg) = self.magnitude();
            let q = am / p;
            proof {
                let pp = pow10(self.scale as nat);
                let k = pow10((SCALE_MAX - self.scale) as nat);
                let cap = pow10(SCALE_MAX as nat);
                lemma_pow10_adds((self.scale) as nat, (SCALE_MAX - self.scale) as nat);
                lemma_pow10_pos((self.scale) as nat);
                lemma_pow10_pos((SCALE_MAX - self.scale) as nat);
                lemma_div_scale_invariant(am as int, pp, k);
                assert(q as int == (am as int * k) / cap);
                lemma_div_trunc_bound(am as int * k, cap, usd_bound());
                assert((-(q as int)) * cap == -((q as int) * cap)) by (nonlinear_arith);
            }
            let m = if neg {
                -(q as i128)
            } else {
                q as i128
            };
            UsdAmount { mantissa: m, scale: 0 }
        }
    }

    /// The amount in whole cents, truncated toward zero.
    pub fn as_cents(&self) -> (r: i64)
        requires
            self.wf(),
            i64::MIN <= div_toward_zero(self@, pow10((SCALE_MAX - 2) as nat)) <= i64::MAX,
        ensures
            r == div_toward_zero(self@, pow10((SCALE_MAX - 2) as nat)),
    {
        proof {
            lemma_pow10_values();
        }
        let (am, neg) = self.magnitude();
        let ghost cap = pow10((SCALE_MAX - 2) as nat);
        let cm: u128 = if self.scale <= 2 {
            let f = pow10_i128(2 - self.scale) as u128;
            proof {
                let fs = pow10((2 - self.scale) as nat);
                lemma_pow10_adds((2 - self.scale) as nat, (SCALE_MAX - 2) as nat);
                lemma_pow10_pos((2 - self.scale) as nat);
                lemma_pow10_pos((SCALE_MAX - 2) as nat);
                assert((am as int * fs) * cap == am as int * pow10((SCALE_MAX - self.scale) as nat)
                    && am as int * fs <= usd_bound() && am as int * fs >= 0) by (nonlinear_arith)
                    requires
                        fs >= 1,
                        cap >= 1,
                        fs * cap == pow10((SCALE_MAX - self.scale) as nat),
                        am as int >= 0,
                        0 <= am as int * pow10((SCALE_MAX - self.scale) as nat) <= usd_bound(),
                ;
                assert(am as int * pow10((SCALE_MAX - self.scale) as nat) <= usd_bound());
                vstd::arithmetic::div_mod::lemma_fundamental_div_mod_converse_div(
                    (am as int * fs) * cap,
                    cap,
                    am as int * fs,
                    0,
                );
            }
            am * f
        } else {
            let p = pow10_i128(self.scale - 2) as u128;
            proof {
                lemma_pow10_adds((self.scale - 2) as nat, (SCALE_MAX - self.scale) as nat);
                lemma_pow10_pos((self.scale - 2) as nat);
                lemma_pow10_pos((SCALE_MAX - self.scale) as nat);
                lemma_div_scale_invariant(
                    am as int,
                    pow10((self.scale - 2) as nat),
                    pow10((SCALE_MAX - self.scale) as nat),
                );
            }
            am / p
        };
        let signed: i128 = if neg {
            -(cm as i128)
        } else {
            cm as i128
        };
        proof {
            lemma_pow10_pos((SCALE_MAX - 2) as nat);
            vstd::arithmetic::div_mod::lemma_div_pos_is_pos(
                am as int * pow10((SCALE_MAX - self.scale) as nat),
                cap,
            );
        }
        signed as i64
    }

    /// Rounds so that at most `places` decimal places remain, halves away
    /// from zero.
    fn round_to_places(&self, places: u32) -> (r: UsdAmount)
        requires
            self.wf(),
            places <= SCALE_MAX,
        ensures
            r@ == round_half_from_zero(self@, pow10((SCALE_MAX - places) as nat)),
            r.wf(),
            r.scale == if self.scale <= places {
                self.scale
            } else {
                places
            },
    {
        proof {
            lemma_pow10_values();
        }
        if self.scale <= places {
            proof {
                lemma_pow10_adds(
                    (places - self.scale) as nat,
                    (SCALE_MAX - places) as nat,
                );
                lemma_pow10_pos((places - self.scale) as nat);
                lemma_pow10_pos((SCALE_MAX - places) as nat);
                let u = self.mantissa as int * pow10((places - self.scale) as nat);
                let p = pow10((SCALE_MAX - places) as nat);
                assert(self@ == u * p) by (nonlinear_arith)
                    requires
                        self@ == self.mantissa as int * pow10((SCALE_MAX - self.scale) as nat),
                        pow10((SCALE_MAX - self.scale) as nat) == pow10(
                            (places - self.scale) as nat,
                        ) * p,
                        u == self.mantissa as int * pow10((places - self.scale) as nat),
                ;
                lemma_round_exact(u, p);
            }
            *self
        } else {
            let p = pow10_i128(self.scale - places) as u128;
            let (am, neg) = self.magnitude();
            proof {
                lemma_pow10_increases((self.scale - places) as nat, 36);
            }
            let q = round_magnitude(am, p);
            proof {
                let pp = pow10((self.scale - places) as nat);
                let k = pow10((SCALE_MAX - self.scale) as nat);
                let cap = pow10((SCALE_MAX - places) as nat);
                lemma_pow10_adds((self.scale - places) as nat, (SCALE_MAX - self.scale) as nat);
                lemma_pow10_pos((self.scale - places) as nat);
                lemma_pow10_pos((SCALE_MAX - self.scale) as nat);
                lemma_pow10_pos((SCALE_MAX - places) as nat);
                lemma_round_scale_invariant(am as int, pp, k);
                assert(q as int == round_half_from_zero_q(am as int * k, cap));
                lemma_pow10_adds((24 + places) as nat, (SCALE_MAX - places) as nat);
                assert(usd_bound() == pow10((24 + places) as nat) * cap);
                lemma_pow10_pos((24 + places) as nat);
                lemma_round_bound(am as int * k, cap, usd_bound());
                lemma_signed_round_value(self@, am as int * k, q as int, neg, cap);
                assert((-(q as int)) * cap == -((q as int) * cap)) by (nonlinear_arith);
            }
            let m = if neg {
                -(q as i128)
            } else {
                q as i128
            };
            UsdAmount { mantissa: m, scale: places }
        }
    }

    /// Splits the amount into its magnitude (as a rescaled non-negative
    /// mantissa) and its sign.
    fn magnitude(&self) -> (r: (u128, bool))
        requires
            self.wf(),
        ensures
            r.1 == (self.mantissa < 0),
            r.0 as int == if self.mantissa < 0 {
                -(self.mantissa as int)
            } else {
                self.mantissa as int
            },
            r.0 as int * pow10((SCALE_MAX - self.scale) as nat) == if r.1 {
                -self@
            } else {
                self@
            },
            r.0 <= usd_bound(),
    {
        proof {
            lemma_pow10_values();
            lemma_self_rescaled_bound(self.mantissa as int, self.scale);
            let f = pow10((SCALE_MAX - self.scale) as nat);
            lemma_pow10_pos((SCALE_MAX - self.scale) as nat);
            assert((-(self.mantissa as int)) * f == -((self.mantissa as int) * f))
                by (nonlinear_arith);
        }
        if self.mantissa < 0 {
            ((-self.mantissa) as u128, true)
        } else {
            (self.mantissa as u128, false)
        }
    }
}

/// Rounds a non-negative magnitude to the nearest multiple of `p`, halves
/// rounding up, returning the quotient.
fn round_magnitude(am: u128, p: u128) -> (q: u128)
    requires
        am <= usd_bound(),
        1 <= p <= usd_bound(),
    ensures
        q as int == round_half_from_zero_q(am as int, p as int),
{
    proof {
        lemma_pow10_values();
    }
    (2 * am + p) / (2 * p)
}

/// Rounding of an exact multiple returns it unchanged.
proof fn lemma_round_exact(u: int, p: int)
    requires
        p >= 1,
    ensures
        round_half_from_zero(u * p, p) == u * p,
{
    if u >= 0 {
        lemma_rhfz_q_of_multiple(u, p);
    } else {
        assert(-(u * p) == (-u) * p) by (nonlinear_arith);
        lemma_rhfz_q_of_multiple(-u, p);
    }
}

/// For `u >= 0`, the rounded quotient of `u * p` by `p` is `u`.
proof fn lemma_rhfz_q_of_multiple(u: int, p: int)
    requires
        p >= 1,
        u >= 0,
    ensures
        round_half_from_zero_q(u * p, p) == u,
{
    assert(2 * (u * p) + p == u * (2 * p) + p) by (nonlinear_arith);
    vstd::arithmetic::div_mod::lemma_fundamental_div_mod_converse_div(
        2 * (u * p) + p,
        2 * p,
        u,
        p,
    );
}

/// Rounding is invariant under scaling numerator and denominator by `k`.
proof fn lemma_round_scale_invariant(v: int, p: int, k: int)
    requires
        v >= 0,
        p >= 1,
        k >= 1,
    ensures
        round_half_from_zero_q(v * k, p * k) == round_half_from_zero_q(v, p),
{
    let q = (2 * v + p) / (2 * p);
    let r = (2 * v + p) % (2 * p);
    vstd::arithmetic::div_mod::lemma_fundamental_div_mod(2 * v + p, 2 * p);
    assert(2 * (v * k) + p * k == q * (2 * (p * k)) + r * k) by (nonlinear_arith)
        requires
            2 * v + p == (2 * p) * q + r,
    ;
    assert(0 <= r * k < 2 * (p * k)) by (nonlinear_arith)
        requires
            0 <= r < 2 * p,
            k >= 1,
    ;
    vstd::arithmetic::div_mod::lemma_fundamental_div_mod_converse_div(
        2 * (v * k) + p * k,
        2 * (p * k),
        q,
        r * k,
    );
    assert(v * k >= 0) by (nonlinear_arith)
        requires
            v >= 0,
            k >= 1,
    ;
}

/// The rounded value keeps within any bound that is a multiple of `p`.
proof fn lemma_round_bound(v: int, p: int, bound: int)
    requires
        0 <= v <= bound,
        p >= 1,
        exists|b: int| b >= 0 && bound == #[trigger] (b * p),
    ensures
        0 <= round_half_from_zero_q(v, p) * p <= bound,
        0 <= round_half_from_zero_q(v, p) <= bound,
{
    let b = choose|b: int| b >= 0 && bound == #[trigger] (b * p);
    let q = (2 * v + p) / (2 * p);
    vstd::arithmetic::div_mod::lemma_div_pos_is_pos(2 * v + p, 2 * p);
    assert(2 * v + p <= b * (2 * p) + p) by (nonlinear_arith)
        requires
            v <= b * p,
    ;
    vstd::arithmetic::div_mod::lemma_fundamental_div_mod_converse_div(
        b * (2 * p) + p,
        2 * p,
        b,
        p,
    );
    vstd::arithmetic::div_mod::lemma_div_is_ordered(2 * v + p, b * (2 * p) + p, 2 * p);
    assert(q * p <= b * p && q <= b * p) by (nonlinear_arith)
        requires
            0 <= q <= b,
            p >= 1,
    ;
    assert(0 <= q * p) by (nonlinear_arith)
        requires
            q >= 0,
            p >= 1,
    ;
}

/// Relates the rounded magnitude back to the signed value.
proof fn lemma_signed_round_value(v: int, am: int, q: int, neg: bool, p: int)
    requires
        p >= 1,
        am == if neg {
            -v
        } else {
            v
        },
        am >= 0,
        q == round_half_from_zero_q(am, p),
    ensures
        (if neg {
            -q
        } else {
            q
        }) * p == round_half_from_zero(v, p),
{
    if neg && v == 0 {
        assert(round_half_from_zero_q(0, p) == p / (2 * p));
        vstd::arithmetic::div_mod::lemma_basic_div(p, 2 * p);
        assert(q == 0);
    }
}

/// Truncation is invariant under scaling numerator and denominator by `k`.
proof fn lemma_div_scale_invariant(v: int, p: int, k: int)
    requires
        v >= 0,
        p >= 1,
        k >= 1,
    ensures
        (v * k) / (p * k) == v / p,
{
    let q = v / p;
    let r = v % p;
    vstd::arithmetic::div_mod::lemma_fundamental_div_mod(v, p);
    assert(v * k == q * (p * k) + r * k) by (nonlinear_arith)
        requires
            v == p * q + r,
    ;
    assert(0 <= r * k < p * k) by (nonlinear_arith)
        requires
            0 <= r < p,
            k >= 1,
    ;
    vstd::arithmetic::div_mod::lemma_fundamental_div_mod_converse_div(v * k, p * k, q, r * k);
}

/// Truncating an exact multiple returns it unchanged.
proof fn lemma_div_exact_toward_zero(u: int, p: int)
    requires
        p >= 1,
    ensures
        div_toward_zero(u * p, p) * p == u * p,
{
    if u >= 0 {
        assert(u * p >= 0) by (nonlinear_arith)
            requires
                u >= 0,
                p >= 1,
        ;
        vstd::arithmetic::div_mod::lemma_fundamental_div_mod_converse_div(u * p, p, u, 0);
    } else {
        assert(-(u * p) == (-u) * p && (-u) * p >= 0) by (nonlinear_arith)
            requires
                u < 0,
                p >= 1,
        ;
        vstd::arithmetic::div_mod::lemma_fundamental_div_mod_converse_div((-u) * p, p, -u, 0);
        assert(div_toward_zero(u * p, p) == u);
        assert((u) * p == -((-u) * p)) by (nonlinear_arith);
    }
}

/// The truncated quotient of a bounded non-negative value is bounded.
proof fn lemma_div_trunc_bound(v: int, p: int, bound: int)
    requires
        0 <= v <= bound,
        p >= 1,
    ensures
        0 <= (v / p) <= bound,
        0 <= (v / p) * p <= bound,
{
    vstd::arithmetic::div_mod::lemma_div_pos_is_pos(v, p);
    vstd::arithmetic::div_mod::lemma_fundamental_div_mod(v, p);
    assert((v / p) * p <= v && v / p <= v) by (nonlinear_arith)
        requires
            v == p * (v / p) + v % p,
            0 <= v % p,
            p >= 1,
            v / p >= 0,
    ;
}

/// The sum of the values of a sequence of amounts.
pub open spec fn sum_values(s: Seq<UsdAmount>) -> int
    decreases s.len(),
{
    if s.len() == 0 {
        0
    } else {
        sum_values(s.drop_last()) + s.last()@
    }
}

/// One more element extends a prefix sum by that element's value.
pub proof fn lemma_sum_take_step(s: Seq<UsdAmount>, i: int)
    requires
        0 <= i < s.len(),
    ensures
        sum_values(s.take(i + 1)) == sum_values(s.take(i)) + s[i]@,
{
    assert(s.take(i + 1).drop_last() =~= s.take(i));
    assert(s.take(i + 1).last() == s[i]);
}

/// The whole sequence is its own full prefix.
pub proof fn lemma_sum_take_all(s: Seq<UsdAmount>)
    ensures
        sum_values(s.take(s.len() as int)) == sum_values(s),
{
    assert(s.take(s.len() as int) =~= s);
}

impl UsdAmount {
    /// Exact sum of a vector of amounts.
    pub fn sum(amounts: &Vec<UsdAmount>) -> (r: UsdAmount)
        requires
            forall|i: int| 0 <= i < amounts@.len() ==> amounts@[i].wf(),
            forall|i: int|
                0 <= i <= amounts@.len() ==> -usd_bound() <= #[trigger] sum_values(
                    amounts@.take(i),
                ) <= usd_bound(),
        ensures
            r@ == sum_values(amounts@),
            r.wf(),
    {
        let mut acc = UsdAmount::zero();
        let mut i: usize = 0;
        proof {
            assert(amounts@.take(0) =~= Seq::<UsdAmount>::empty());
        }
        while i < amounts.len()
            invariant
                i <= amounts@.len(),
                acc@ == sum_values(amounts@.take(i as int)),
                acc.wf(),
                forall|j: int| 0 <= j < amounts@.len() ==> amounts@[j].wf(),
                forall|j: int|
                    0 <= j <= amounts@.len() ==> -usd_bound() <= #[trigger] sum_values(
                        amounts@.take(j),
                    ) <= usd_bound(),
            decreases amounts@.len() - i,
        {
            proof {
                lemma_sum_take_step(amounts@, i as int);
            }
            acc = acc.add(&amounts[i]);
            i = i + 1;
        }
        proof {
            lemma_sum_take_all(amounts@);
        }
        acc
    }
}

/// A fractional rate (a tax rate, a phase-out rate), held exactly in basis
/// points: `basis_points / 10^4`.  Rates never exceed 100%.
#[derive(Debug, Clone, Copy, PartialEq, Eq, Structural)]
pub struct Rate {
    /// The rate numerator over `10^4`; `1000` means 10%.
    pub basis_points: u32,
}

/// Decimal places a [`Rate`] carries.
pub const RATE_SCALE: u32 = 4;

impl Rate {
    /// Well-formedness: the rate is between 0 and 1 inclusive.
    pub open spec fn wf(self) -> bool {
        self.basis_points <= 10000
    }

    /// Create a rate from basis points (`1000` is 10%).
    pub fn from_basis_points(basis_points: u32) -> (r: Rate)
        requires
            basis_points <= 10000,
        ensures
            r.basis_points == basis_points,
            r.wf(),
    {
        Rate { basis_points }
    }
}

/// The character for one decimal digit.
pub open spec fn digit_char(d: int) -> char {
    if d == 0 {
        '0'
    } else if d == 1 {
        '1'
    } else if d == 2 {
        '2'
    } else if d == 3 {
        '3'
    } else if d == 4 {
        '4'
    } else if d == 5 {
        '5'
    } else if d == 6 {
        '6'
    } else if d == 7 {
        '7'
    } else if d == 8 {
        '8'
    } else {
        '9'
    }
}

/// The decimal digits of `n`, most significant first, no leading zeros
/// (a single `'0'` for zero).
pub open spec fn dec_digits(n: nat) -> Seq<char>
    decreases n,
{
    if n < 10 {
        seq![digit_char(n as int)]
    } else {
        dec_digits(n / 10) + seq![digit_char((n % 10) as int)]
    }
}

/// How an amount of whole `cents` renders: a dollar sign, the sign, the
/// dollars, a point, and exactly two cent digits.
pub open spec fn usd_display(cents: int) -> Seq<char> {
    let m = if cents < 0 {
        -cents
    } else {
        cents
    };
    let sign: Seq<char> = if cents < 0 {
        seq!['-']
    } else {
        Seq::empty()
    };
    seq!['$'] + sign + dec_digits((m / 100) as nat) + seq!['.'] + seq![
        digit_char((m % 100) / 10),
        digit_char(m % 100 % 10),
    ]
}

impl UsdAmount {
    /// Renders the amount at cent precision (halves away from zero), in the
    /// form `$123.45`, with a minus sign after the dollar sign if negative.
    pub fn display_string(&self) -> (r: String)
        requires
            self.wf(),
        ensures
            r@ == usd_display(round_half_from_zero_q(self@, pow10((SCALE_MAX - 2) as nat))),
    {
        proof {
            lemma_pow10_values();
        }
        let c = self.round_to_cents();
        let f = pow10_i128(2 - c.scale);
        let ghost cap = pow10((SCALE_MAX - 2) as nat);
        let ghost q = round_half_from_zero_q(self@, cap);
        proof {
            let fs = pow10((2 - c.scale) as nat);
            lemma_pow10_adds((2 - c.scale) as nat, (SCALE_MAX - 2) as nat);
            lemma_pow10_pos((2 - c.scale) as nat);
            lemma_pow10_pos((SCALE_MAX - 2) as nat);
            assert((c.mantissa as int * fs) * cap == c@ && (-usd_bound() <= c.mantissa as int * fs
                <= usd_bound())) by (nonlinear_arith)
                requires
                    fs >= 1,
                    cap >= 1,
                    fs * cap == pow10((SCALE_MAX - c.scale) as nat),
                    c@ == c.mantissa as int * pow10((SCALE_MAX - c.scale) as nat),
                    -usd_bound() <= c@ <= usd_bound(),
            ;
            assert(c@ == q * cap);
            lemma_mul_pos_order(c.mantissa as int * fs, q, cap);
        }
        let cents: i128 = c.mantissa * f;
        let mag: u128 = if cents < 0 {
            (-cents) as u128
        } else {
            cents as u128
        };
        let mut s = String::new();
        s.append("$");
        if cents < 0 {
            s.append("-");
        }
        push_dec_digits(&mut s, mag / 100);
        s.append(".");
        let cc = mag % 100;
        s.append(digit_str(cc / 10));
        s.append(digit_str(cc % 10));
        proof {
            reveal_strlit("$");
            reveal_strlit("-");
            reveal_strlit(".");
            assert(s@ =~= usd_display(q));
        }
        s
    }
}

/// Appends the decimal digits of `n` to `s`.
pub(crate) fn push_dec_digits(s: &mut String, n: u128)
    ensures
        final(s)@ == old(s)@ + dec_digits(n as nat),
    decreases n,
{
    if n < 10 {
        s.append(digit_str(n));
    } else {
        proof {
            assert(n / 10 < n) by (nonlinear_arith)
                requires
                    n >= 10,
            ;
        }
        push_dec_digits(s, n / 10);
        s.append(digit_str(n % 10));
        proof {
            assert(old(s)@ + dec_digits((n / 10) as nat) + seq![
                digit_char((n % 10) as int),
            ] =~= old(s)@ + dec_digits(n as nat));
        }
    }
}

/// The one-character string for a decimal digit.
fn digit_str(d: u128) -> (r: &'static str)
    requires
        d < 10,
    ensures
        r@ == seq![digit_char(d as int)],
{
    proof {
        reveal_strlit("0");
        reveal_strlit("1");
        reveal_strlit("2");
        reveal_strlit("3");
        reveal_strlit("4");
        reveal_strlit("5");
        reveal_strlit("6");
        reveal_strlit("7");
        reveal_strlit("8");
        reveal_strlit("9");
    }
    let r: &'static str = if d == 0 {
        "0"
    } else if d == 1 {
        "1"
    } else if d == 2 {
        "2"
    } else if d == 3 {
        "3"
    } else if d == 4 {
        "4"
    } else if d == 5 {
        "5"
    } else if d == 6 {
        "6"
    } else if d == 7 {
        "7"
    } else if d == 8 {
        "8"
    } else {
        "9"
    };
    proof {
        assert(r@ =~= seq![digit_char(d as int)]);
    }
    r
}

/// Bounds needed for `multiply_rate`: the product mantissa stays within
/// `i128`, and the scaled result stays within the amount bound.
proof fn lemma_multiply_rate_bounds(m: int, s: u32, bp: int)
    requires
        s + RATE_SCALE <= SCALE_MAX,
        0 <= bp <= 10000,
        -usd_bound() <= m * pow10((SCALE_MAX - s) as nat) <= usd_bound(),
    ensures
        -usd_bound() <= m * bp <= usd_bound(),
        -usd_bound() <= (m * bp) * pow10((SCALE_MAX - (s + RATE_SCALE)) as nat) <= usd_bound(),
        ((m * bp) * pow10((SCALE_MAX - (s + RATE_SCALE)) as nat)) * 10000 == (m * pow10(
            (SCALE_MAX - s) as nat,
        )) * bp,
        m * pow10((SCALE_MAX - s) as nat) >= 0 ==> (m * bp) * pow10(
            (SCALE_MAX - (s + RATE_SCALE)) as nat,
        ) >= 0,
{
    let e1 = (SCALE_MAX - (s + RATE_SCALE)) as nat;
    let e2 = (SCALE_MAX - s) as nat;
    let f1 = pow10(e1);
    let f2 = pow10(e2);
    lemma_pow10_pos(e1);
    lemma_pow10_pos(e2);
    lemma_pow10_adds(e1, 4);
    lemma_pow10_values();
    assert(f2 == f1 * 10000);
    let b = usd_bound();
    lemma_pow10_pos(36);
    assert(((m * bp) * f1) * 10000 == (m * f2) * bp) by (nonlinear_arith)
        requires
            f2 == f1 * 10000,
    ;
    assert(-b <= (m * bp) * f1 <= b) by (nonlinear_arith)
        requires
            f1 >= 1,
            f2 == f1 * 10000,
            0 <= bp <= 10000,
            -b <= m * f2 <= b,
            b >= 0,
    ;
    assert(-b <= m * bp <= b) by (nonlinear_arith)
        requires
            f1 >= 1,
            -b <= (m * bp) * f1 <= b,
            b >= 0,
    ;
    assert(m * f2 >= 0 ==> (m * bp) * f1 >= 0) by (nonlinear_arith)
        requires
            f1 >= 1,
            f2 >= 1,
            bp >= 0,
    ;
}

/// Rescales a mantissa from scale `s` up to scale `t` without changing the
/// value it denotes.
fn rescale_mantissa(m: i128, s: u32, t: u32) -> (r: i128)
    requires
        s <= t <= SCALE_MAX,
        -usd_bound() <= m * pow10((SCALE_MAX - s) as nat) <= usd_bound(),
    ensures
        r == m * pow10((t - s) as nat),
        r * pow10((SCALE_MAX - t) as nat) == m * pow10((SCALE_MAX - s) as nat),
        -usd_bound() <= r <= usd_bound(),
{
    let f = pow10_i128(t - s);
    proof {
        lemma_pow10_values();
        let e1 = (t - s) as nat;
        let e2 = (SCALE_MAX - t) as nat;
        lemma_pow10_adds(e1, e2);
        lemma_pow10_pos(e1);
        lemma_pow10_pos(e2);
        assert((m * pow10(e1)) * pow10(e2) == m * pow10((SCALE_MAX - s) as nat) && (-usd_bound()
            <= (m * pow10(e1)) * pow10(e2) <= usd_bound() ==> -usd_bound() <= m * pow10(e1)
            <= usd_bound())) by (nonlinear_arith)
            requires
                pow10(e1) >= 1,
                pow10(e2) >= 1,
                pow10(e1) * pow10(e2) == pow10((e1 + e2) as nat),
                e1 + e2 == (SCALE_MAX - s) as nat,
                usd_bound() >= 0,
        ;
    }
    m * f
}

/// Brings two amounts to a common scale `t`, returning mantissas whose
/// ordering and sums mirror the amounts' values.
fn rescale_pair(a: &UsdAmount, b: &UsdAmount) -> (r: (i128, i128, u32))
    requires
        a.wf(),
        b.wf(),
    ensures
        r.2 == if a.scale >= b.scale {
            a.scale
        } else {
            b.scale
        },
        r.2 <= SCALE_MAX,
        r.0 * pow10((SCALE_MAX - r.2) as nat) == a@,
        r.1 * pow10((SCALE_MAX - r.2) as nat) == b@,
        -usd_bound() <= r.0 <= usd_bound(),
        -usd_bound() <= r.1 <= usd_bound(),
{
    if a.scale >= b.scale {
        let rb = rescale_mantissa(b.mantissa, b.scale, a.scale);
        proof {
            lemma_self_rescaled_bound(a.mantissa as int, a.scale);
        }
        (a.mantissa, rb, a.scale)
    } else {
        let ra = rescale_mantissa(a.mantissa, a.scale, b.scale);
        proof {
            lemma_self_rescaled_bound(b.mantissa as int, b.scale);
        }
        (ra, b.mantissa, b.scale)
    }
}

/// A well-formed amount's own mantissa is within the value bound.
proof fn lemma_self_rescaled_bound(m: int, s: u32)
    requires
        s <= SCALE_MAX,
        -usd_bound() <= m * pow10((SCALE_MAX - s) as nat) <= usd_bound(),
    ensures
        -usd_bound() <= m <= usd_bound(),
{
    let f = pow10((SCALE_MAX - s) as nat);
    lemma_pow10_pos((SCALE_MAX - s) as nat);
    assert(-usd_bound() <= m <= usd_bound()) by (nonlinear_arith)
        requires
            f >= 1,
            -usd_bound() <= m * f <= usd_bound(),
            usd_bound() >= 0,
    ;
}

/// Multiplying by a positive factor preserves order and equality.
proof fn lemma_mul_pos_order(x: int, y: int, f: int)
    requires
        f >= 1,
    ensures
        (x < y) <==> (x * f < y * f),
        (x <= y) <==> (x * f <= y * f),
        (x == y) <==> (x * f == y * f),
{
    assert(((x < y) <==> (x * f < y * f)) && ((x <= y) <==> (x * f <= y * f)) && ((x == y) <==> (x
        * f == y * f))) by (nonlinear_arith)
        requires
            f >= 1,
    ;
}

/// A sum of rescaled mantissas denotes the sum of the values, and is bounded
/// when that sum is.
proof fn lemma_sum_rescaled(x: int, y: int, f: int, bound: int)
    requires
        f >= 1,
        bound >= 0,
    ensures
        (x + y) * f == x * f + y * f,
        -bound <= x * f + y * f <= bound ==> -bound <= x + y <= bound,
{
    assert((x + y) * f == x * f + y * f && (-bound <= x * f + y * f <= bound ==> -bound <= x + y
        <= bound)) by (nonlinear_arith)
        requires
            f >= 1,
            bound >= 0,
    ;
}

/// A mantissa that fits in an `i64` is well-formed at any scale up to 2.
proof fn lemma_from_small_scale_wf(m: int, s: u32)
    requires
        s <= 2,
        i64::MIN <= m <= i64::MAX,
    ensures
        -usd_bound() <= m * pow10((SCALE_MAX - s) as nat) <= usd_bound(),
{
    let e = (SCALE_MAX - s) as nat;
    lemma_pow10_pos(e);
    lemma_pow10_increases(e, 12);
    assert(pow10(12) * pow10(24) == pow10(36)) by {
        lemma_pow10_adds(12, 24);
    }
    assert(pow10(12) <= pow10(36)) by {
        lemma_pow10_increases(12, 36);
    }
    assert(i64::MAX < pow10(24)) by {
        lemma_pow10_values();
    }
    assert(m * pow10(e) <= usd_bound() && -usd_bound() <= m * pow10(e)) by (nonlinear_arith)
        requires
            1 <= pow10(e) <= pow10(12),
            -pow10(24) <= m <= pow10(24),
            pow10(12) * pow10(24) == pow10(36),
            usd_bound() == pow10(36),
    ;
}

/// A product is zero exactly when a factor is; with a positive right factor,
/// sign and order carry over from the left factor.
proof fn lemma_mul_zero_iff(a: int, b: int)
    requires
        b >= 1,
    ensures
        (a * b == 0) <==> (a == 0),
{
    assert((a * b == 0) <==> (a == 0)) by (nonlinear_arith)
        requires
            b >= 1,
    ;
}

/// With a positive right factor, the product has the sign of the left factor.
proof fn lemma_mul_sign(a: int, b: int)
    requires
        b >= 1,
    ensures
        (a * b < 0) <==> (a < 0),
        (a * b > 0) <==> (a > 0),
{
    assert(((a * b < 0) <==> (a < 0)) && ((a * b > 0) <==> (a > 0))) by (nonlinear_arith)
        requires
            b >= 1,
    ;
}

} // verus!
