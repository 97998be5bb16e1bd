//! Decoding of the sensor's 16-bit temperature register.

use vstd::prelude::*;

verus! {

/// The register read as a two's-complement number: the temperature in
/// sixteenths of a degree.
pub open spec fn register_value(raw: u16) -> int {
    if raw < 0x8000 {
        raw as int
    } else {
        raw as int - 0x1_0000
    }
}

/// Whole degrees of the register, rounded towards zero.
pub open spec fn whole_degrees(raw: u16) -> int {
    let value = register_value(raw);
    if value >= 0 {
        value / 16
    } else {
        -((-value) / 16)
    }
}

/// What is left after the whole degrees, in ten-thousandths of a degree, with
/// the sign of the temperature.
pub open spec fn fraction(raw: u16) -> int {
    let value = register_value(raw);
    if value >= 0 {
        (value % 16) * 625
    } else {
        -(((-value) % 16) * 625)
    }
}

/// The register that holds the negated temperature (two's complement).
pub open spec fn negated(raw: u16) -> u16 {
    if raw == 0 {
        0u16
    } else {
        (0x1_0000 - raw) as u16
    }
}

/// Splits the raw register into whole degrees and ten-thousandths of a
/// degree. Both parts carry the sign of the temperature.
pub fn split_temp(temperature: u16) -> (parts: (i16, i16))
    ensures
        parts.0 == whole_degrees(temperature),
        parts.1 == fraction(temperature),
{
    if temperature < 0x8000 {
        let whole: u16 = temperature >> 4;
        let sixteenths: u16 = temperature & 0xF;
        assert(whole == temperature / 16 && sixteenths == temperature % 16) by (bit_vector)
            requires
                whole == temperature >> 4,
                sixteenths == temperature & 0xF,
        ;
        (whole as i16, (sixteenths as i16) * 625)
    } else {
        let magnitude: u16 = (0xFFFF - temperature) + 1;
        let whole: u16 = magnitude >> 4;
        let sixteenths: u16 = magnitude & 0xF;
        assert(whole == magnitude / 16 && sixteenths == magnitude % 16) by (bit_vector)
            requires
                whole == magnitude >> 4,
                sixteenths == magnitude & 0xF,
        ;
        let steps: i16 = sixteenths as i16;
        (-(whole as i16), -(625 * steps))
    }
}

/// A decoded reading: whole degrees and ten-thousandths of a degree, both
/// with the sign of the temperature.
#[derive(Clone, Copy, Debug, PartialEq, Eq)]
pub struct Temperature {
    integer: i16,
    fraction: i16,
}

impl View for Temperature {
    type V = (int, int);

    closed spec fn view(&self) -> (int, int) {
        (self.integer as int, self.fraction as int)
    }
}

impl Temperature {
    /// A reading never leaves the range of the register, and its two parts
    /// never disagree in sign.
    #[verifier::type_invariant]
    closed spec fn in_range(self) -> bool {
        &&& -2048 <= self.integer <= 2047
        &&& -9375 <= self.fraction <= 9375
        &&& self.integer > 0 ==> self.fraction >= 0
        &&& self.integer < 0 ==> self.fraction <= 0
    }

    /// Decodes the raw register.
    pub fn from_register(raw: u16) -> (reading: Temperature)
        ensures
            reading@ == (whole_degrees(raw), fraction(raw)),
    {
        let parts: (i16, i16) = split_temp(raw);
        proof {
            lemma_split_range(raw);
        }
        Temperature { integer: parts.0, fraction: parts.1 }
    }

    /// Whole degrees, rounded towards zero.
    pub fn integer(&self) -> (whole: i16)
        ensures
            whole == self@.0,
            -2048 <= whole <= 2047,
    {
        proof {
            use_type_invariant(self);
        }
        self.integer
    }

    /// Ten-thousandths of a degree beyond the whole degrees.
    pub fn fraction(&self) -> (part: i16)
        ensures
            part == self@.1,
            -9375 <= part <= 9375,
            self@.0 > 0 ==> part >= 0,
            self@.0 < 0 ==> part <= 0,
    {
        proof {
            use_type_invariant(self);
        }
        self.fraction
    }

    /// Whether the reading lies below zero.
    pub fn is_negative(&self) -> (below: bool)
        ensures
            below == (self@.0 < 0 || self@.1 < 0),
    {
        self.integer < 0 || self.fraction < 0
    }
}

/// A reading is nothing but its two parts: readings with the same parts are
/// the same reading.
pub proof fn lemma_parts_settle_reading(a: Temperature, b: Temperature)
    requires
        a@ == b@,
    ensures
        a == b,
{
}

/// Both parts of a decoded register stay within the sensor's range and
/// never disagree in sign.
pub proof fn lemma_split_range(raw: u16)
    ensures
        -2048 <= whole_degrees(raw) <= 2047,
        -9375 <= fraction(raw) <= 9375,
        fraction(raw) % 625 == 0,
        whole_degrees(raw) > 0 ==> fraction(raw) >= 0,
        whole_degrees(raw) < 0 ==> fraction(raw) <= 0,
        register_value(raw) >= 0 ==> whole_degrees(raw) >= 0 && fraction(raw) >= 0,
        register_value(raw) <= 0 ==> whole_degrees(raw) <= 0 && fraction(raw) <= 0,
{
}

/// The two parts together are the register's value exactly: in
/// ten-thousandths of a degree, one sixteenth is 625.
pub proof fn lemma_split_exact(raw: u16)
    ensures
        whole_degrees(raw) * 10000 + fraction(raw) == register_value(raw) * 625,
{
}

/// Decoding a register and decoding its two's-complement negation give
/// parts that are exact negations of each other. The most negative
/// register is its own negation and is left out.
pub proof fn lemma_split_negated(raw: u16)
    requires
        raw != 0x8000,
    ensures
        register_value(negated(raw)) == -register_value(raw),
        whole_degrees(negated(raw)) == -whole_degrees(raw),
        fraction(negated(raw)) == -fraction(raw),
{
}

} // verus!
