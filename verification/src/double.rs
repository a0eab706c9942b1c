//! Double-precision numbers, held by their bit patterns.
//!
//! Playback positions, volumes and subtitle settings arrive as IEEE 754
//! doubles. A [`Double`] carries the 64 bits of one, so that it can be handed
//! on unchanged, and answers the few questions that are asked of it by integer
//! arithmetic: whether it is above zero, and which whole number it contains.
use vstd::arithmetic::div_mod::*;
use vstd::arithmetic::power2::*;
use vstd::prelude::*;

verus! {

/// The bits of an IEEE 754 double: sign, 11 bits of exponent, 52 of fraction.
#[derive(Clone, Copy, Debug, PartialEq, Eq, Structural)]
pub struct Double {
    pub bits: u64,
}

/// The bits of the double 200.
pub const TWO_HUNDRED: u64 = 0x4069_0000_0000_0000;

impl Double {
    /// Whether the sign bit is set.
    pub open spec fn negative(self) -> bool {
        self.bits >= 0x8000_0000_0000_0000
    }

    /// The bits without the sign.
    pub open spec fn unsigned_bits(self) -> int {
        self.bits as int % 0x8000_0000_0000_0000
    }

    /// The exponent field.
    pub open spec fn exponent(self) -> int {
        self.unsigned_bits() / 0x10_0000_0000_0000
    }

    /// The fraction field.
    pub open spec fn fraction(self) -> int {
        self.unsigned_bits() % 0x10_0000_0000_0000
    }

    /// Whether this is not a number.
    pub open spec fn nan(self) -> bool {
        self.exponent() == 2047 && self.fraction() != 0
    }

    /// Whether this is one of the two infinities.
    pub open spec fn infinite(self) -> bool {
        self.exponent() == 2047 && self.fraction() == 0
    }

    /// The integer that, times two to the power of [`Double::scale`], is the
    /// magnitude of a finite double.
    pub open spec fn significand(self) -> int {
        if self.exponent() == 0 {
            self.fraction()
        } else {
            self.fraction() + 0x10_0000_0000_0000
        }
    }

    /// The power of two that scales the significand.
    pub open spec fn scale(self) -> int {
        if self.exponent() == 0 {
            -1074
        } else {
            self.exponent() - 1075
        }
    }

    /// The magnitude of a finite double, rounded down to a whole number.
    pub open spec fn whole_magnitude(self) -> int {
        if self.scale() >= 0 {
            self.significand() * pow2(self.scale() as nat)
        } else {
            self.significand() / pow2((-self.scale()) as nat) as int
        }
    }

    /// Whether the magnitude of a finite double is above the whole number `n`.
    pub open spec fn magnitude_above(self, n: int) -> bool {
        if self.scale() >= 0 {
            self.significand() * pow2(self.scale() as nat) > n
        } else {
            self.significand() > n * pow2((-self.scale()) as nat)
        }
    }

    /// Whether this is a number above zero.
    pub open spec fn above_zero(self) -> bool {
        !self.nan() && !self.negative() && self.unsigned_bits() != 0
    }

    /// Whether this is a number below zero.
    pub open spec fn below_zero(self) -> bool {
        !self.nan() && self.negative() && self.unsigned_bits() != 0
    }

    /// Whether this is a number, and zero or below.
    pub open spec fn at_most_zero(self) -> bool {
        !self.nan() && !self.above_zero()
    }

    /// The whole number nearest to this double in the direction of zero, kept
    /// within 64 bits. What is not a number counts as zero.
    pub open spec fn whole(self) -> i64 {
        if self.nan() {
            0
        } else if self.negative() {
            if self.infinite() || -self.whole_magnitude() < i64::MIN {
                i64::MIN
            } else {
                (-self.whole_magnitude()) as i64
            }
        } else {
            if self.infinite() || self.whole_magnitude() > i64::MAX {
                i64::MAX
            } else {
                self.whole_magnitude() as i64
            }
        }
    }

    /// This double, or the nearer end of the range from 0 to 200 where it is a
    /// number outside that range.
    pub open spec fn kept_within_200(self) -> Double {
        if self.nan() {
            self
        } else if self.below_zero() {
            Double { bits: 0 }
        } else if !self.negative() && (self.infinite() || self.magnitude_above(200)) {
            Double { bits: TWO_HUNDRED }
        } else {
            self
        }
    }

    /// Zero.
    pub fn zero() -> (d: Double)
        ensures
            d.bits == 0,
    {
        Double { bits: 0 }
    }

    fn unsigned(self) -> (bits: u64)
        ensures
            bits == self.unsigned_bits(),
    {
        self.bits % 0x8000_0000_0000_0000
    }

    fn exponent_field(self) -> (exponent: u64)
        ensures
            exponent == self.exponent(),
            exponent <= 2047,
    {
        self.unsigned() / 0x10_0000_0000_0000
    }

    fn fraction_field(self) -> (fraction: u64)
        ensures
            fraction == self.fraction(),
            fraction < 0x10_0000_0000_0000,
    {
        self.unsigned() % 0x10_0000_0000_0000
    }

    fn is_nan(self) -> (yes: bool)
        ensures
            yes == self.nan(),
    {
        self.exponent_field() == 2047 && self.fraction_field() != 0
    }

    /// Whether this is a number above zero.
    pub fn is_above_zero(self) -> (yes: bool)
        ensures
            yes == self.above_zero(),
    {
        !self.is_nan() && self.bits < 0x8000_0000_0000_0000 && self.unsigned() != 0
    }

    /// Whether this is a number, and zero or below.
    pub fn is_at_most_zero(self) -> (yes: bool)
        ensures
            yes == self.at_most_zero(),
    {
        !self.is_nan() && !self.is_above_zero()
    }

    /// The magnitude of a finite double, rounded down, where it is below two
    /// to the power of 63.
    fn small_magnitude(self) -> (whole: Option<u64>)
        requires
            self.exponent() < 2047,
        ensures
            whole is Some <==> self.whole_magnitude() <= i64::MAX,
            whole matches Some(w) ==> w == self.whole_magnitude(),
    {
        let exponent: u64 = self.exponent_field();
        let fraction: u64 = self.fraction_field();
        proof {
            lemma2_to64();
            lemma2_to64_rest();
        }
        if exponent < 1023 {
            proof {
                if self.scale() < -53 {
                    lemma_pow2_strictly_increases(53, (-self.scale()) as nat);
                }
                lemma_basic_div(self.significand(), pow2((-self.scale()) as nat) as int);
            }
            return Some(0);
        }
        let significand: u64 = fraction + 0x10_0000_0000_0000;
        if exponent >= 1086 {
            proof {
                let k = self.scale() as nat;
                if k > 11 {
                    lemma_pow2_strictly_increases(11, k);
                }
                assert(self.significand() * pow2(k) >= 0x10_0000_0000_0000 * 2048)
                    by (nonlinear_arith)
                    requires
                        self.significand() >= 0x10_0000_0000_0000,
                        pow2(k) >= 2048,
                ;
            }
            return None;
        }
        let mut value: u64 = significand;
        if exponent >= 1075 {
            let steps: u64 = exponent - 1075;
            let mut i: u64 = 0;
            while i < steps
                invariant
                    i <= steps <= 10,
                    significand < 0x20_0000_0000_0000,
                    value == significand * pow2(i as nat),
                    pow2(10) == 1024,
                    pow2(i as nat) <= 1024,
                decreases steps - i,
            {
                proof {
                    lemma_pow2_unfold((i + 1) as nat);
                    if i + 1 < 10 {
                        lemma_pow2_strictly_increases((i + 1) as nat, 10);
                    }
                    assert(significand * pow2(i as nat) * 2 == significand * (2 * pow2(i as nat)))
                        by (nonlinear_arith);
                    assert(significand * (2 * pow2(i as nat)) <= 0x20_0000_0000_0000 * 1024)
                        by (nonlinear_arith)
                        requires
                            significand < 0x20_0000_0000_0000,
                            2 * pow2(i as nat) <= 1024,
                    ;
                }
                value = value * 2;
                i = i + 1;
            }
            proof {
                assert(significand * pow2(steps as nat) <= 0x1F_FFFF_FFFF_FFFF * 1024)
                    by (nonlinear_arith)
                    requires
                        significand <= 0x1F_FFFF_FFFF_FFFF,
                        pow2(steps as nat) <= 1024,
                ;
            }
        } else {
            let steps: u64 = 1075 - exponent;
            let mut i: u64 = 0;
            while i < steps
                invariant
                    i <= steps,
                    value <= significand,
                    value == significand as int / pow2(i as nat) as int,
                decreases steps - i,
            {
                proof {
                    lemma_pow2_unfold((i + 1) as nat);
                    lemma_pow2_pos(i as nat);
                    lemma_div_denominator(significand as int, pow2(i as nat) as int, 2);
                }
                value = value / 2;
                i = i + 1;
            }
        }
        Some(value)
    }

    /// The whole number nearest to this double in the direction of zero, kept
    /// within 64 bits.
    pub fn to_whole(self) -> (whole: i64)
        ensures
            whole == self.whole(),
    {
        if self.is_nan() {
            return 0;
        }
        let negative = self.bits >= 0x8000_0000_0000_0000;
        let small = if self.exponent_field() == 2047 {
            None
        } else {
            self.small_magnitude()
        };
        match small {
            Some(w) => if negative {
                -(w as i64)
            } else {
                w as i64
            },
            None => if negative {
                i64::MIN
            } else {
                i64::MAX
            },
        }
    }

    /// This double, kept within the range from 0 to 200.
    pub fn clamp_to_200(self) -> (d: Double)
        ensures
            d == self.kept_within_200(),
    {
        if self.is_nan() {
            self
        } else if self.bits >= 0x8000_0000_0000_0000 {
            if self.unsigned() != 0 {
                Double { bits: 0 }
            } else {
                self
            }
        } else {
            proof {
                self.lemma_above_200();
            }
            if self.bits > TWO_HUNDRED {
                Double { bits: TWO_HUNDRED }
            } else {
                self
            }
        }
    }

    /// Doubles that are not negative are in the order of their bits; here, on
    /// either side of 200.
    proof fn lemma_above_200(self)
        requires
            !self.negative(),
            !self.nan(),
        ensures
            (self.infinite() || self.magnitude_above(200)) <==> self.bits > TWO_HUNDRED,
    {
        lemma2_to64();
        lemma2_to64_rest();
        let m = self.significand();
        let k = self.scale();
        if k >= 0 {
            lemma_pow2_pos(k as nat);
            assert(m * pow2(k as nat) >= m) by (nonlinear_arith)
                requires
                    pow2(k as nat) >= 1,
                    m >= 0,
            ;
        } else {
            if -k > 46 {
                lemma_pow2_strictly_increases(46, (-k) as nat);
            }
            if -k < 44 {
                lemma_pow2_strictly_increases((-k) as nat, 44);
            }
        }
    }

    /// What is kept within the range is neither below zero nor above 200, and
    /// what is neither is kept as it is.
    pub proof fn law_kept_within_range(self)
        requires
            !self.nan(),
        ensures
            ({
                let kept = self.kept_within_200();
                &&& !kept.nan()
                &&& !kept.below_zero()
                &&& !kept.infinite()
                &&& !kept.magnitude_above(200)
            }),
            !self.below_zero() && !self.infinite() && !self.magnitude_above(200)
                ==> self.kept_within_200() == self,
    {
        if !self.negative() {
            self.lemma_above_200();
        }
        Double { bits: 0 }.lemma_above_200();
        Double { bits: TWO_HUNDRED }.lemma_above_200();
        if self.negative() && self.unsigned_bits() == 0 {
            lemma2_to64();
            lemma_pow2_pos(1074);
        }
    }

    /// What is not a number is kept; what is below zero becomes zero, and what is
    /// above 200, infinity as well, becomes 200.
    pub proof fn law_kept_at_the_ends(self)
        ensures
            self.nan() ==> self.kept_within_200() == self,
            self.bits > 0x8000_0000_0000_0000 && !self.nan() ==> self.kept_within_200().bits == 0,
            0x4069_0000_0000_0000 < self.bits <= 0x7ff0_0000_0000_0000
                ==> self.kept_within_200().bits == 0x4069_0000_0000_0000,
            self.bits <= 0x4069_0000_0000_0000 ==> self.kept_within_200() == self,
    {
        if !self.negative() && !self.nan() {
            self.lemma_above_200();
        }
    }

    /// Doubles above zero are those from the least bits up to those of infinity;
    /// those at zero or below have the sign bit and no more than those of infinity,
    /// or no bits at all. What is beyond either infinity is not a number.
    pub proof fn law_signs(self)
        ensures
            self.above_zero() <==> 0 < self.bits <= 0x7ff0_0000_0000_0000,
            self.at_most_zero() <==> self.bits == 0 || 0x8000_0000_0000_0000 <= self.bits
                <= 0xfff0_0000_0000_0000,
            self.nan() <==> 0x7ff0_0000_0000_0000 < self.bits < 0x8000_0000_0000_0000
                || 0xfff0_0000_0000_0000 < self.bits,
            self.infinite() <==> self.bits == 0x7ff0_0000_0000_0000 || self.bits
                == 0xfff0_0000_0000_0000,
    {
    }

    /// The whole number is the magnitude with what is behind the point cut off, and
    /// with the sign; where it does not fit, it is the one that is nearest.
    pub proof fn law_whole_cuts_off(self)
        ensures
            self.nan() ==> self.whole() == 0,
            !self.nan() && !self.infinite() && self.scale() < 0 ==> {
                let w = if self.negative() {
                    -self.whole()
                } else {
                    self.whole() as int
                };
                &&& w >= 0
                &&& w * pow2((-self.scale()) as nat) <= self.significand()
                &&& self.significand() < (w + 1) * pow2((-self.scale()) as nat)
            },
            !self.nan() && !self.infinite() && self.scale() >= 0 ==> {
                let m = self.significand() * pow2(self.scale() as nat);
                &&& !self.negative() ==> self.whole() == (if m <= i64::MAX {
                    m
                } else {
                    i64::MAX as int
                })
                &&& self.negative() ==> self.whole() == (if -m >= i64::MIN {
                    -m
                } else {
                    i64::MIN as int
                })
            },
            self.infinite() && !self.negative() ==> self.whole() == i64::MAX,
            self.infinite() && self.negative() ==> self.whole() == i64::MIN,
    {
        if !self.nan() && !self.infinite() && self.scale() < 0 {
            let p = pow2((-self.scale()) as nat) as int;
            let m = self.significand();
            lemma_pow2_pos((-self.scale()) as nat);
            let q = m / p;
            assert(q * p <= m < (q + 1) * p && 0 <= q <= m) by (nonlinear_arith)
                requires
                    p > 0,
                    m >= 0,
                    q == m / p,
            ;
            assert(m < 0x20_0000_0000_0000);
        }
    }
}

} // verus!
