//! Numbers in the IEEE 754 binary32 format, held as their 32 bits, and the
//! height in small stackers that such a number stands for.
//!
//! A finite binary32 number that is not below `2^-126` is `±m · 2^(s − 149)`
//! for a significand `m` from `2^23` to below `2^24` and a scale `s` from 0
//! to 253. Heights are stored in a unit of length of which a small stacker
//! measures 0.36, and the binary32 number nearest to 0.36 is
//! `12079596 · 2^-25`. The height in small stackers is the quotient of the
//! two, divided as binary32 numbers are and then rounded to a whole number.
use vstd::arithmetic::power2::{lemma_pow2_pos, lemma_pow2_unfold, pow2};
use vstd::prelude::*;

verus! {

/// A binary32 number, held as its 32 bits.
#[derive(Clone, Copy, Debug, PartialEq, Eq, Structural)]
pub struct Binary32 {
    pub bits: u32,
}

/// The significand of the binary32 number nearest to 0.36, the length of a
/// small stacker: that number is `12079596 · 2^-25`.
pub const SMALL_STACKER_SIGNIFICAND: u64 = 12079596;

/// `numerator / denominator`, rounded to the nearest whole number, a half
/// rounded up.
pub open spec fn round_half_up(numerator: nat, denominator: nat) -> nat {
    (2 * numerator + denominator) / (2 * denominator)
}

/// `numerator / denominator`, rounded to the nearest whole number, a half
/// rounded to the even one of its two neighbours.
pub open spec fn round_half_even(numerator: nat, denominator: nat) -> nat {
    let floor = numerator / denominator;
    let rest = numerator % denominator;
    if 2 * rest > denominator || (2 * rest == denominator && floor % 2 == 1) {
        floor + 1
    } else {
        floor
    }
}

impl Binary32 {
    /// Whether the sign bit is set.
    pub open spec fn spec_is_negative(self) -> bool {
        self.bits >= 0x8000_0000
    }

    /// The eight bits of the exponent.
    pub open spec fn spec_exponent(self) -> nat {
        ((self.bits / 0x80_0000) % 0x100) as nat
    }

    /// The twenty-three bits of the fraction.
    pub open spec fn spec_fraction(self) -> nat {
        (self.bits % 0x80_0000) as nat
    }

    /// Whether the bits stand for no number.
    pub open spec fn spec_is_nan(self) -> bool {
        self.spec_exponent() == 0xff && self.spec_fraction() != 0
    }

    /// Whether the bits stand for an infinity.
    pub open spec fn spec_is_infinite(self) -> bool {
        self.spec_exponent() == 0xff && self.spec_fraction() == 0
    }

    /// Whether the bits stand for zero or for a number below `2^-126`.
    pub open spec fn spec_is_tiny(self) -> bool {
        self.spec_exponent() == 0
    }

    /// The significand `m` of a number `±m · 2^(s − 149)` that is finite and
    /// not tiny.
    pub open spec fn spec_significand(self) -> nat {
        self.spec_fraction() + 0x80_0000
    }

    /// The scale `s` of a number `±m · 2^(s − 149)` that is finite and not
    /// tiny.
    pub open spec fn spec_scale(self) -> nat {
        (self.spec_exponent() - 1) as nat
    }

    /// The significand of the quotient of a number `±m · 2^(s − 149)` and
    /// the length of a small stacker, `c · 2^-25`: `m / c` lies between a
    /// half and two and is rounded to 24 significant bits, a tie to the
    /// even neighbour.
    pub open spec fn spec_quotient_significand(self) -> nat {
        if self.spec_significand() >= 12079596 {
            round_half_even(self.spec_significand() * 0x80_0000, 12079596)
        } else {
            round_half_even(self.spec_significand() * 0x100_0000, 12079596)
        }
    }

    /// The power of two by which the significand of the quotient is
    /// multiplied.
    pub open spec fn spec_quotient_scale(self) -> int {
        if self.spec_significand() >= 12079596 {
            self.spec_scale() - 147
        } else {
            self.spec_scale() - 148
        }
    }

    /// For a finite number, the magnitude of its quotient with the length of
    /// a small stacker, rounded to the nearest whole number, a half rounded
    /// up. The quotient of a tiny number is tiny and rounds to zero.
    pub open spec fn spec_stackers_magnitude(self) -> nat {
        if self.spec_is_tiny() {
            0
        } else if self.spec_quotient_scale() >= 0 {
            self.spec_quotient_significand() * pow2(self.spec_quotient_scale() as nat)
        } else {
            round_half_up(
                self.spec_quotient_significand(),
                pow2((-self.spec_quotient_scale()) as nat),
            )
        }
    }

    /// The height in small stackers that the number stands for: for a finite
    /// number its quotient with the length of a small stacker, divided as
    /// binary32 numbers are, and rounded to the nearest whole number, a half
    /// away from zero; the nearest value of `i32` where that is none. An
    /// infinity gives the nearest value of `i32` too, and what is no number
    /// gives zero.
    pub open spec fn spec_small_stackers(self) -> int {
        if self.spec_is_nan() {
            0
        } else if self.spec_is_infinite() {
            if self.spec_is_negative() {
                i32::MIN as int
            } else {
                i32::MAX as int
            }
        } else if self.spec_is_negative() {
            if self.spec_stackers_magnitude() >= 0x8000_0000 {
                i32::MIN as int
            } else {
                -(self.spec_stackers_magnitude() as int)
            }
        } else {
            if self.spec_stackers_magnitude() >= 0x7fff_ffff {
                i32::MAX as int
            } else {
                self.spec_stackers_magnitude() as int
            }
        }
    }

    /// The number with the given bits.
    pub fn from_bits(bits: u32) -> (number: Binary32)
        ensures
            number.bits == bits,
    {
        Binary32 { bits }
    }

    /// The bits of the number.
    pub fn to_bits(&self) -> (bits: u32)
        ensures
            bits == self.bits,
    {
        self.bits
    }

    /// The height in small stackers that the number stands for.
    pub fn small_stackers(&self) -> (height: i32)
        ensures
            height == self.spec_small_stackers(),
    {
        let negative: bool = self.bits >= 0x8000_0000;
        let exponent: u32 = (self.bits / 0x80_0000) % 0x100;
        let fraction: u32 = self.bits % 0x80_0000;
        if exponent == 0xff {
            return if fraction != 0 {
                0
            } else if negative {
                i32::MIN
            } else {
                i32::MAX
            };
        }
        if exponent == 0 {
            return 0;
        }
        let significand: u64 = fraction as u64 + 0x80_0000;
        let scale: i32 = exponent as i32 - 1;
        let at_least_one: bool = significand >= SMALL_STACKER_SIGNIFICAND;
        let numerator: u64 = if at_least_one {
            significand * 0x80_0000
        } else {
            significand * 0x100_0000
        };
        let shift: i32 = if at_least_one {
            scale - 147
        } else {
            scale - 148
        };
        let floor: u64 = numerator / SMALL_STACKER_SIGNIFICAND;
        let rest: u64 = numerator % SMALL_STACKER_SIGNIFICAND;
        let quotient: u64 = if 2 * rest > SMALL_STACKER_SIGNIFICAND || (2 * rest
            == SMALL_STACKER_SIGNIFICAND && floor % 2 == 1) {
            floor + 1
        } else {
            floor
        };
        let magnitude: u64 = if shift >= 8 {
            proof {
                lemma_pow2_values();
                lemma_pow2_monotonic(8, shift as nat);
                assert(quotient * pow2(shift as nat) >= 0x8000_0000) by (nonlinear_arith)
                    requires
                        quotient >= 0x80_0000,
                        pow2(shift as nat) >= 0x100,
                ;
            }
            0x8000_0000
        } else if shift >= 0 {
            let power: u64 = power_of_two(shift as u32);
            assert(quotient * power <= 0x100_0000 * 0x80) by (nonlinear_arith)
                requires
                    quotient <= 0x100_0000,
                    power <= 0x80,
            ;
            quotient * power
        } else if shift <= -26 {
            proof {
                lemma_pow2_values();
                lemma_pow2_monotonic(26, (-shift) as nat);
                vstd::arithmetic::div_mod::lemma_basic_div(
                    (2 * quotient + pow2((-shift) as nat)) as int,
                    (2 * pow2((-shift) as nat)) as int,
                );
            }
            0
        } else {
            let power: u64 = power_of_two((-shift) as u32);
            (2 * quotient + power) / (2 * power)
        };
        if negative {
            if magnitude >= 0x8000_0000 {
                i32::MIN
            } else {
                -(magnitude as i32)
            }
        } else {
            if magnitude >= 0x7fff_ffff {
                i32::MAX
            } else {
                magnitude as i32
            }
        }
    }
}

/// Two to the power of `exponent`, for an exponent up to 31.
pub fn power_of_two(exponent: u32) -> (power: u64)
    requires
        exponent <= 31,
    ensures
        power == pow2(exponent as nat),
        1 <= power <= 0x8000_0000,
        exponent <= 7 ==> power <= 0x80,
{
    let mut power: u64 = 1;
    let mut done: u32 = 0;
    proof {
        lemma_pow2_values();
    }
    while done < exponent
        invariant
            done <= exponent <= 31,
            power == pow2(done as nat),
            power <= pow2(31),
            pow2(31) == 0x8000_0000,
            done <= 7 ==> power <= pow2(7),
            pow2(7) == 0x80,
        decreases exponent - done,
    {
        proof {
            lemma_pow2_unfold((done + 1) as nat);
            lemma_pow2_monotonic((done + 1) as nat, 31);
            if done + 1 <= 7 {
                lemma_pow2_monotonic((done + 1) as nat, 7);
            }
        }
        power = power * 2;
        done = done + 1;
    }
    proof {
        lemma_pow2_pos(exponent as nat);
    }
    power
}

/// The powers of two that the bounds of this file are stated with.
proof fn lemma_pow2_values()
    ensures
        pow2(0) == 1,
        pow2(7) == 0x80,
        pow2(8) == 0x100,
        pow2(26) == 0x400_0000,
        pow2(31) == 0x8000_0000,
{
    vstd::arithmetic::power2::lemma2_to64();
}

/// A larger exponent gives no smaller power of two.
proof fn lemma_pow2_monotonic(low: nat, high: nat)
    requires
        low <= high,
    ensures
        pow2(low) <= pow2(high),
{
    if low < high {
        vstd::arithmetic::power2::lemma_pow2_strictly_increases(low, high);
    }
}

} // verus!
