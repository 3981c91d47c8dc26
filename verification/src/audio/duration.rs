//! Exact lengths of silence.
//!
//! A length of time arrives as a binary floating-point number of seconds.
//! Such a number is a whole multiple of a power of two, so it is held here
//! as that pair of integers, and the number of frames that it spans at a
//! sample rate is computed without rounding anything but the result.

use vstd::prelude::*;

verus! {

/// Two to the power `e`.
pub open spec fn two_to(e: nat) -> nat
    decreases e,
{
    if e == 0 {
        1
    } else {
        2 * two_to((e - 1) as nat)
    }
}

/// Powers of two grow with their exponent.
pub proof fn lemma_two_to_grows(a: nat, b: nat)
    requires
        a <= b,
    ensures
        0 < two_to(a) <= two_to(b),
    decreases b,
{
    if b == 0 {
    } else if a == b {
        lemma_two_to_grows(0, (b - 1) as nat);
    } else {
        lemma_two_to_grows(a, (b - 1) as nat);
    }
}

/// Two to the power 52: the weight of the implicit leading bit of a
/// double's significand.
pub const HIDDEN_BIT: u64 = 0x10_0000_0000_0000;

/// Two to the power 63: the weight of a double's sign bit.
pub const SIGN_BIT: u64 = 0x8000_0000_0000_0000;

/// A length of time of `mantissa * 2^exponent` seconds, never negative.
#[derive(Clone, Copy, Debug, PartialEq, Eq, Structural)]
pub struct SilenceDuration {
    pub mantissa: u64,
    pub exponent: i16,
}

impl SilenceDuration {
    /// The duration that the bit pattern `bits` of a double denotes:
    /// nothing for an infinity, for what is not a number and for a number
    /// below zero; zero for either zero.
    pub open spec fn of_f64_bits(bits: u64) -> Option<SilenceDuration> {
        let fraction = bits % HIDDEN_BIT;
        let exponent_field = (bits / HIDDEN_BIT) % 2048;
        if exponent_field == 2047 {
            None
        } else if bits >= SIGN_BIT && (exponent_field != 0 || fraction != 0) {
            None
        } else if exponent_field == 0 {
            Some(SilenceDuration { mantissa: fraction, exponent: (-1074) as i16 })
        } else {
            Some(
                SilenceDuration {
                    mantissa: (fraction + HIDDEN_BIT) as u64,
                    exponent: (exponent_field - 1075) as i16,
                },
            )
        }
    }

    /// The number of frames that the duration spans at `sample_rate`
    /// frames per second: the product of the two, rounded to the nearest
    /// integer, a half rounding up.
    pub open spec fn frames_at(self, sample_rate: u32) -> nat {
        if self.exponent >= 0 {
            (self.mantissa * sample_rate * two_to(self.exponent as nat)) as nat
        } else {
            ((2 * (self.mantissa * sample_rate) + two_to((-self.exponent) as nat)) / (2 * two_to(
                (-self.exponent) as nat,
            ) as int)) as nat
        }
    }

    /// The bit pattern of the double that is infinitely great.
    pub open spec fn infinity_bits() -> u64 {
        0x7FF0_0000_0000_0000
    }

    /// A duration beyond every double: what an infinite number of seconds
    /// is taken for.
    pub open spec fn endless_duration() -> SilenceDuration {
        SilenceDuration { mantissa: 0xFFFF_FFFF_FFFF_FFFF, exponent: 0x7FFF }
    }

    /// The duration that any bit pattern of a double is taken for: what
    /// it denotes, where it denotes a duration; the endless duration for
    /// the infinitely great; and no time at all for what is below zero or
    /// not a number, which asks for no silence.
    pub open spec fn of_seconds_bits(bits: u64) -> SilenceDuration {
        match Self::of_f64_bits(bits) {
            Some(duration) => duration,
            None => if bits == Self::infinity_bits() {
                Self::endless_duration()
            } else {
                SilenceDuration { mantissa: 0, exponent: 0 }
            },
        }
    }

    /// A duration beyond every double.
    pub fn endless() -> (duration: SilenceDuration)
        ensures
            duration == Self::endless_duration(),
    {
        SilenceDuration { mantissa: 0xFFFF_FFFF_FFFF_FFFF, exponent: 0x7FFF }
    }

    /// Takes the bit pattern of a double, as `f64::to_bits` gives it, for
    /// a duration, whatever the double.
    pub fn from_seconds_bits(bits: u64) -> (duration: SilenceDuration)
        ensures
            duration == Self::of_seconds_bits(bits),
    {
        match Self::from_f64_bits(bits) {
            Some(duration) => duration,
            None => if bits == 0x7FF0_0000_0000_0000 {
                Self::endless()
            } else {
                Self::zero()
            },
        }
    }

    /// The endless duration spans more frames than a `u64` counts, at any
    /// sample rate above zero.
    pub proof fn lemma_endless_is_beyond_counting(sample_rate: u32)
        requires
            sample_rate > 0,
        ensures
            Self::endless_duration().frames_at(sample_rate) >= 0xFFFF_FFFF_FFFF_FFFF,
    {
        let unit = two_to(0x7FFF);
        lemma_two_to_grows(0, 0x7FFF);
        assert(0xFFFF_FFFF_FFFF_FFFF * sample_rate * unit >= 0xFFFF_FFFF_FFFF_FFFF)
            by (nonlinear_arith)
            requires
                sample_rate >= 1,
                unit >= 1,
        ;
    }

    /// No time at all.
    pub fn zero() -> (duration: SilenceDuration)
        ensures
            duration == (SilenceDuration { mantissa: 0, exponent: 0 }),
            forall|sample_rate: u32| #[trigger] duration.frames_at(sample_rate) == 0,
    {
        let duration = SilenceDuration { mantissa: 0, exponent: 0 };
        assert forall|sample_rate: u32| #[trigger] duration.frames_at(sample_rate) == 0 by {
            assert(0 * sample_rate * two_to(0) == 0) by (nonlinear_arith);
        }
        duration
    }

    /// A whole number of seconds.
    pub fn whole_seconds(seconds: u64) -> (duration: SilenceDuration)
        ensures
            duration == (SilenceDuration { mantissa: seconds, exponent: 0 }),
            forall|sample_rate: u32| #[trigger]
                duration.frames_at(sample_rate) == seconds * sample_rate,
    {
        let duration = SilenceDuration { mantissa: seconds, exponent: 0 };
        assert forall|sample_rate: u32| #[trigger]
            duration.frames_at(sample_rate) == seconds * sample_rate by {
            assert(seconds * sample_rate * 1 == seconds * sample_rate) by (nonlinear_arith);
        }
        duration
    }

    /// Reads a duration off the bit pattern of a double, as
    /// `f64::to_bits` gives it.
    pub fn from_f64_bits(bits: u64) -> (duration: Option<SilenceDuration>)
        ensures
            duration == Self::of_f64_bits(bits),
    {
        let fraction: u64 = bits % HIDDEN_BIT;
        let exponent_field: u64 = (bits / HIDDEN_BIT) % 2048;
        if exponent_field == 2047 {
            None
        } else if bits >= SIGN_BIT && (exponent_field != 0 || fraction != 0) {
            None
        } else if exponent_field == 0 {
            Some(SilenceDuration { mantissa: fraction, exponent: -1074 })
        } else {
            let exponent: i16 = (exponent_field as i16) - 1075;
            Some(SilenceDuration { mantissa: fraction + HIDDEN_BIT, exponent })
        }
    }

    /// Counts the frames that the duration spans at `sample_rate`, unless
    /// they are more than a `u64` can count.
    pub fn frames(&self, sample_rate: u32) -> (count: Option<u64>)
        ensures
            match count {
                Some(n) => n == self.frames_at(sample_rate),
                None => self.frames_at(sample_rate) > u64::MAX,
            },
    {
        assert(self.mantissa * sample_rate < 0x1_0000_0000_0000_0000_0000_0000) by (nonlinear_arith)
            requires
                self.mantissa <= u64::MAX,
                sample_rate <= u32::MAX,
        ;
        let product: u128 = (self.mantissa as u128) * (sample_rate as u128);
        if self.exponent >= 0 {
            scale_up(product, self.exponent)
        } else {
            let places: u16 = if self.exponent == i16::MIN {
                32768
            } else {
                (-self.exponent) as u16
            };
            round_scaled_down(product, places)
        }
    }
}

/// `product * 2^exponent`, unless it is more than a `u64` can hold.
fn scale_up(product: u128, exponent: i16) -> (scaled: Option<u64>)
    requires
        exponent >= 0,
    ensures
        match scaled {
            Some(n) => n == product * two_to(exponent as nat),
            None => product * two_to(exponent as nat) > u64::MAX,
        },
{
    let ghost target = two_to(exponent as nat);
    if product == 0 {
        assert(0 * target == 0) by (nonlinear_arith);
        return Some(0);
    }
    if product > u64::MAX as u128 {
        proof {
            lemma_two_to_grows(0, exponent as nat);
            assert(product * target >= product) by (nonlinear_arith)
                requires
                    target >= 1,
                    product >= 0,
            ;
        }
        return None;
    }
    let mut scaled: u128 = product;
    let mut done: i16 = 0;
    assert(product * two_to(0) == product) by (nonlinear_arith)
        requires
            two_to(0) == 1,
    ;
    while done < exponent
        invariant
            0 <= done <= exponent,
            product >= 1,
            scaled == product * two_to(done as nat),
            scaled <= u64::MAX,
            target == two_to(exponent as nat),
        decreases exponent - done,
    {
        if scaled > (u64::MAX as u128) / 2 {
            proof {
                lemma_two_to_grows((done + 1) as nat, exponent as nat);
                assert(product * target >= product * two_to((done + 1) as nat))
                    by (nonlinear_arith)
                    requires
                        target >= two_to((done + 1) as nat),
                        product >= 1,
                ;
                assert(product * two_to((done + 1) as nat) == 2 * scaled) by (nonlinear_arith)
                    requires
                        scaled == product * two_to(done as nat),
                        two_to((done + 1) as nat) == 2 * two_to(done as nat),
                ;
            }
            return None;
        }
        proof {
            assert(product * two_to((done + 1) as nat) == 2 * scaled) by (nonlinear_arith)
                requires
                    scaled == product * two_to(done as nat),
                    two_to((done + 1) as nat) == 2 * two_to(done as nat),
            ;
        }
        scaled = scaled * 2;
        done = done + 1;
    }
    Some(scaled as u64)
}

/// `product / 2^places`, rounded to the nearest integer with a half
/// rounding up, unless it is more than a `u64` can hold.
fn round_scaled_down(product: u128, places: u16) -> (rounded: Option<u64>)
    requires
        product < 0x1_0000_0000_0000_0000_0000_0000,
    ensures
        match rounded {
            Some(n) => n == (2 * product + two_to(places as nat)) / (2 * two_to(
                places as nat,
            ) as int),
            None => (2 * product + two_to(places as nat)) / (2 * two_to(places as nat) as int)
                > u64::MAX,
        },
{
    let ghost target = two_to(places as nat);
    let mut unit: u128 = 1;
    let mut done: u16 = 0;
    while done < places
        invariant
            done <= places,
            unit >= 1,
            unit == two_to(done as nat),
            unit <= 0x2_0000_0000_0000_0000_0000_0000,
            target == two_to(places as nat),
            product < 0x1_0000_0000_0000_0000_0000_0000,
        decreases places - done,
    {
        if unit > 0x1_0000_0000_0000_0000_0000_0000 {
            proof {
                lemma_two_to_grows((done + 1) as nat, places as nat);
                assert(target >= 2 * unit);
                assert((2 * product + target) / (2 * target as int) == 0) by (nonlinear_arith)
                    requires
                        0 <= 2 * product < target,
                ;
            }
            return Some(0);
        }
        unit = unit * 2;
        done = done + 1;
    }
    let rounded: u128 = (2 * product + unit) / (2 * unit);
    if rounded > u64::MAX as u128 {
        None
    } else {
        Some(rounded as u64)
    }
}

} // verus!
