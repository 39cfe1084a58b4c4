use vstd::prelude::*;
use vstd::arithmetic::div_mod::{lemma_div_by_multiple, lemma_mod_multiples_basic};
use vstd::arithmetic::power2::{
    lemma2_to64, lemma2_to64_rest, lemma_pow2_pos, lemma_pow2_strictly_increases,
    lemma_pow2_unfold, pow2,
};

verus! {

/// A real quantity (an amount, a temperature, a number of minutes), held as
/// the 64 bits of its IEEE-754 double. Two quantities are the same when their
/// bits are.
#[derive(Clone, Copy, Debug, PartialEq, Eq, Structural)]
pub struct Quantity {
    pub bits: u64,
}

impl View for Quantity {
    type V = Quantity;

    open spec fn view(&self) -> Quantity {
        *self
    }
}

impl DeepView for Quantity {
    type V = Quantity;

    open spec fn deep_view(&self) -> Quantity {
        *self
    }
}

impl Quantity {
    /// The quantity zero, with the sign bit clear.
    pub open spec fn zero_value() -> Quantity {
        Quantity { bits: 0 }
    }

    /// Whether the quantity is a number below zero. Zero with the sign bit
    /// set is not, and neither is what is no number.
    pub open spec fn below_zero(self) -> bool {
        0x8000_0000_0000_0000 < self.bits <= 0xfff0_0000_0000_0000
    }

    /// Whether the quantity is a number, and not infinite: its exponent is
    /// not the one that marks the infinities and what is no number.
    pub open spec fn finite(self) -> bool {
        self.exponent() != 2047
    }

    /// Whether the quantity can be a time in the oven: a number, not
    /// infinite, and not below zero.
    pub open spec fn is_duration(self) -> bool {
        self.finite() && !self.below_zero()
    }

    /// Whether the quantity is a number below zero, as a time in the oven
    /// cannot be.
    pub fn is_negative(&self) -> (negative: bool)
        ensures
            negative == self.below_zero(),
    {
        0x8000_0000_0000_0000 < self.bits && self.bits <= 0xfff0_0000_0000_0000
    }

    /// Whether the quantity is a number, and not infinite.
    pub fn is_finite(&self) -> (finite: bool)
        ensures
            finite == self.finite(),
    {
        (self.bits / 0x10_0000_0000_0000) % 2048 != 2047
    }

    /// The time in the oven that a field holds after an edit: the number
    /// that the typed text reads as, or zero where it reads as none, as an
    /// infinite one, or as one below zero.
    pub open spec fn duration_of(parsed: Option<Quantity>) -> Quantity {
        match parsed {
            Some(p) => if p.is_duration() {
                p
            } else {
                Quantity::zero_value()
            },
            None => Quantity::zero_value(),
        }
    }

    /// The time in the oven that a field holds after an edit.
    pub fn duration_or_zero(parsed: Option<Quantity>) -> (q: Quantity)
        ensures
            q == Quantity::duration_of(parsed),
            q.is_duration(),
    {
        match parsed {
            Some(p) => if p.is_finite() && !p.is_negative() {
                p
            } else {
                Quantity::zero()
            },
            None => Quantity::zero(),
        }
    }

    /// The quantity zero.
    pub fn zero() -> (q: Quantity)
        ensures
            q == Quantity::zero_value(),
    {
        Quantity { bits: 0 }
    }

    /// The quantity with the given bits.
    pub fn from_bits(bits: u64) -> (q: Quantity)
        ensures
            q.bits == bits,
    {
        Quantity { bits }
    }

    /// The bits of this quantity.
    pub fn to_bits(&self) -> (bits: u64)
        ensures
            bits == self.bits,
    {
        self.bits
    }

    /// What a number field holds after an edit: the number that the typed
    /// text reads as, or zero where it reads as none.
    pub fn or_zero(parsed: Option<Quantity>) -> (q: Quantity)
        ensures
            q == match parsed {
                Some(p) => p,
                None => Quantity::zero_value(),
            },
    {
        match parsed {
            Some(p) => p,
            None => Quantity::zero(),
        }
    }
}

/// How far a significand is from having fifty-three bits.
pub open spec fn room(significand: int) -> nat {
    if significand >= 0x10_0000_0000_0000 {
        0
    } else {
        (0x10_0000_0000_0000 - significand) as nat
    }
}

/// A significand and its exponent brought into the form in which a double
/// holds them: the significand doubled, and the exponent lowered by one each
/// time, until the significand has fifty-three bits.
pub open spec fn normalized(significand: int, exponent: int) -> (int, int)
    decreases room(significand),
{
    if significand <= 0 || significand >= 0x10_0000_0000_0000 {
        (significand, exponent)
    } else {
        normalized(2 * significand, exponent - 1)
    }
}

/// A significand of fewer than fifty-three bits can be doubled once more:
/// the exponent has not reached its floor, and the doubled significand is
/// still no less than the power of two that goes with the lowered exponent.
proof fn lemma_doubling_fits(significand: int, exponent: int)
    requires
        0 < significand < 0x10_0000_0000_0000,
        1023 <= exponent <= 1075,
        significand >= pow2((1075 - exponent) as nat),
    ensures
        exponent > 1023,
        2 * significand >= pow2((1075 - (exponent - 1)) as nat),
{
    lemma2_to64();
    lemma2_to64_rest();
    let shift = (1075 - exponent) as nat;
    if shift >= 52 {
        if shift > 52 {
            lemma_pow2_strictly_increases(52, shift);
        }
        assert(false);
    }
    lemma_pow2_unfold(shift + 1);
}

/// What normalizing leaves: a significand of fifty-three bits that is the
/// one given times a power of two, and the exponent lowered by as much.
proof fn lemma_normalized(significand: int, exponent: int)
    requires
        0 < significand < 0x20_0000_0000_0000,
        1023 <= exponent <= 1075,
        significand >= pow2((1075 - exponent) as nat),
    ensures
        ({
            let (s, e) = normalized(significand, exponent);
            &&& 0x10_0000_0000_0000 <= s < 0x20_0000_0000_0000
            &&& 1023 <= e <= exponent
            &&& s == significand * pow2((exponent - e) as nat)
        }),
    decreases room(significand),
{
    lemma2_to64();
    lemma2_to64_rest();
    if significand >= 0x10_0000_0000_0000 {
        assert(significand * pow2(0) == significand);
    } else {
        lemma_doubling_fits(significand, exponent);
        lemma_normalized(2 * significand, exponent - 1);
        let (s, e) = normalized(2 * significand, exponent - 1);
        let k = (exponent - 1 - e) as nat;
        lemma_pow2_unfold(k + 1);
        assert(s == significand * pow2(k + 1)) by (nonlinear_arith)
            requires
                s == (2 * significand) * pow2(k),
                pow2(k + 1) == 2 * pow2(k),
        ;
    }
}

impl Quantity {
    /// The sign bit.
    pub open spec fn sign(self) -> int {
        self.bits as int / 0x8000_0000_0000_0000
    }

    /// The eleven bits of the exponent.
    pub open spec fn exponent(self) -> int {
        (self.bits as int / 0x10_0000_0000_0000) % 2048
    }

    /// The fifty-two bits of the fraction.
    pub open spec fn fraction(self) -> int {
        self.bits as int % 0x10_0000_0000_0000
    }

    /// The whole number that the quantity is, if it is one. Of the two
    /// zeros both are zero; what is infinite or no number is none.
    pub open spec fn whole(self) -> Option<int> {
        let e = self.exponent();
        let significand = 0x10_0000_0000_0000 + self.fraction();
        let magnitude: Option<int> = if e == 0 {
            if self.fraction() == 0 {
                Some(0)
            } else {
                None
            }
        } else if e == 2047 || e < 1023 {
            None
        } else if e >= 1075 {
            Some(significand * pow2((e - 1075) as nat))
        } else if significand % (pow2((1075 - e) as nat) as int) == 0 {
            Some(significand / (pow2((1075 - e) as nat) as int))
        } else {
            None
        };
        match magnitude {
            Some(m) => Some(
                if self.sign() == 1 {
                    -m
                } else {
                    m
                },
            ),
            None => None,
        }
    }

    /// Whether a whole number is one of those that every double-based
    /// reader holds exactly: below two to the fifty-third in magnitude.
    pub open spec fn is_safe(n: int) -> bool {
        -0x20_0000_0000_0000 < n < 0x20_0000_0000_0000
    }

    /// The quantity that is a whole number. Zero has the sign bit clear.
    pub open spec fn of_whole(n: int) -> Quantity {
        if n == 0 {
            Quantity::zero_value()
        } else {
            let (s, e) = normalized(
                if n < 0 {
                    -n
                } else {
                    n
                },
                1075,
            );
            let sign: int = if n < 0 {
                0x8000_0000_0000_0000
            } else {
                0
            };
            Quantity { bits: (sign + e * 0x10_0000_0000_0000 + (s - 0x10_0000_0000_0000)) as u64 }
        }
    }

    /// The quantity that is a whole number; none where the number is not
    /// safe.
    pub fn from_whole(n: i64) -> (r: Option<Quantity>)
        ensures
            r == if Quantity::is_safe(n as int) {
                Some(Quantity::of_whole(n as int))
            } else {
                None
            },
    {
        if n == 0 {
            return Some(Quantity { bits: 0 });
        }
        if n <= -0x20_0000_0000_0000 || n >= 0x20_0000_0000_0000 {
            return None;
        }
        let magnitude: u64 = if n < 0 {
            (-n) as u64
        } else {
            n as u64
        };
        let mut significand: u64 = magnitude;
        let mut exponent: u64 = 1075;
        proof {
            lemma2_to64();
        }
        while significand < 0x10_0000_0000_0000
            invariant
                0 < significand < 0x20_0000_0000_0000,
                1023 <= exponent <= 1075,
                significand >= pow2((1075 - exponent) as nat),
                normalized(significand as int, exponent as int) == normalized(magnitude as int, 1075),
            decreases room(significand as int),
        {
            proof {
                lemma_doubling_fits(significand as int, exponent as int);
            }
            significand = significand * 2;
            exponent = exponent - 1;
        }
        let sign: u64 = if n < 0 {
            0x8000_0000_0000_0000
        } else {
            0
        };
        Some(
            Quantity {
                bits: sign + exponent * 0x10_0000_0000_0000 + (significand - 0x10_0000_0000_0000),
            },
        )
    }

    /// A safe whole number is the whole number that its quantity is.
    pub proof fn law_whole_is_kept(n: int)
        requires
            Quantity::is_safe(n),
        ensures
            Quantity::of_whole(n).whole() == Some(n),
    {
        lemma2_to64();
        lemma2_to64_rest();
        if n != 0 {
            let a = if n < 0 {
                -n
            } else {
                n
            };
            lemma_normalized(a, 1075);
            let (s, e) = normalized(a, 1075);
            let sign: int = if n < 0 {
                0x8000_0000_0000_0000
            } else {
                0
            };
            let f = s - 0x10_0000_0000_0000;
            let bits = sign + e * 0x10_0000_0000_0000 + f;
            let q = Quantity::of_whole(n);
            assert(q.bits == bits);
            assert(q.fraction() == f);
            assert(bits / 0x10_0000_0000_0000 == (if n < 0 {
                2048int
            } else {
                0int
            }) + e);
            assert(q.exponent() == e);
            assert(q.sign() == if n < 0 {
                1int
            } else {
                0int
            });
            let d = pow2((1075 - e) as nat) as int;
            lemma_pow2_pos((1075 - e) as nat);
            lemma_mod_multiples_basic(a, d);
            lemma_div_by_multiple(a, d);
            assert(s == a * d);
            assert(0x10_0000_0000_0000 + q.fraction() == s);
            if e == 1075 {
                assert(d == 1);
                assert(s * pow2((e - 1075) as nat) == a) by (nonlinear_arith)
                    requires
                        s == a * d,
                        d == 1,
                        pow2((e - 1075) as nat) == 1,
                ;
            } else {
                assert(s % d == 0);
                assert(s / d == a);
            }
            assert(q.whole() == Some(n));
        } else {
            assert(Quantity::of_whole(0).bits == 0);
            assert(Quantity::of_whole(0).whole() == Some(0int));
        }
    }
}

impl Default for Quantity {
    fn default() -> (q: Quantity)
        ensures
            q == Quantity::zero_value(),
    {
        Quantity { bits: 0 }
    }
}

} // verus!
