//! The temperature sensor's protocol: its family code, how long a conversion
//! takes, and what a read attempt amounts to.

use vstd::prelude::*;
use crate::bus::BusFault;
use crate::temperature::{fraction, whole_degrees, Temperature};

verus! {

/// Family code of the one sensor family that is handled.
pub const SENSOR_FAMILY: u8 = 0x28;

/// How finely the sensor converts.
#[derive(Clone, Copy, Debug, PartialEq, Eq)]
pub enum Resolution {
    /// Half degrees.
    Bits9,
    /// Quarter degrees.
    Bits10,
    /// Eighths of a degree.
    Bits11,
    /// Sixteenths of a degree.
    Bits12,
}

impl Resolution {
    /// Bits of the converted value.
    pub open spec fn bits(self) -> int {
        match self {
            Resolution::Bits9 => 9,
            Resolution::Bits10 => 10,
            Resolution::Bits11 => 11,
            Resolution::Bits12 => 12,
        }
    }

    /// Milliseconds a conversion takes at most, as the sensor's data sheet
    /// gives them, rounded up.
    pub open spec fn wait_ms(self) -> int {
        match self {
            Resolution::Bits9 => 94,
            Resolution::Bits10 => 188,
            Resolution::Bits11 => 375,
            Resolution::Bits12 => 750,
        }
    }

    /// Milliseconds to wait after a conversion was started before the result
    /// may be read.
    pub fn time_ms(&self) -> (ms: u16)
        ensures
            ms == self.wait_ms(),
    {
        conversion_time(*self)
    }
}

/// Calls `onewire::ds18b20::MeasureResolution::time_ms` on the resolution of
/// the same number of bits. Trusted: it returns 94, 188, 375 and 750
/// milliseconds for 9, 10, 11 and 12 bits.
#[verifier::external_body]
fn conversion_time(resolution: Resolution) -> (ms: u16)
    ensures
        ms == resolution.wait_ms(),
{
    match resolution {
        Resolution::Bits9 => onewire::ds18b20::MeasureResolution::TC8.time_ms(),
        Resolution::Bits10 => onewire::ds18b20::MeasureResolution::TC4.time_ms(),
        Resolution::Bits11 => onewire::ds18b20::MeasureResolution::TC2.time_ms(),
        Resolution::Bits12 => onewire::ds18b20::MeasureResolution::TC.time_ms(),
    }
}

/// A finer conversion takes longer, and none takes more than 750
/// milliseconds.
pub proof fn lemma_finer_takes_longer(coarse: Resolution, fine: Resolution)
    ensures
        coarse.bits() < fine.bits() ==> coarse.wait_ms() < fine.wait_ms(),
        0 < fine.wait_ms() <= 750,
{
}

/// Why a reading was lost. The reading is dropped; the next poll tries again.
#[derive(Clone, Copy, Debug, PartialEq, Eq)]
pub enum ProtocolError {
    /// The scratchpad's checksum did not match its contents.
    CrcMismatch,
    /// The transfer failed on the bus.
    Bus,
}

/// What a failed transfer means for the reading: a checksum that did not
/// match is reported as such, every other fault as a failure of the bus.
pub open spec fn error_of(fault: BusFault) -> ProtocolError {
    if fault is CrcMismatch {
        ProtocolError::CrcMismatch
    } else {
        ProtocolError::Bus
    }
}

/// What a failed transfer means for the reading.
pub fn protocol_error(fault: BusFault) -> (error: ProtocolError)
    ensures
        error == error_of(fault),
{
    match fault {
        BusFault::CrcMismatch { computed: _, carried: _ } => ProtocolError::CrcMismatch,
        _ => ProtocolError::Bus,
    }
}

/// Turns a read attempt into a reading: the decoded register if the transfer
/// went through, the reason for the loss if not.
pub fn reading(outcome: Result<u16, BusFault>) -> (result: Result<Temperature, ProtocolError>)
    ensures
        match outcome {
            Ok(raw) => result is Ok && result->Ok_0@ == (whole_degrees(raw), fraction(raw)),
            Err(fault) => result == Err::<Temperature, ProtocolError>(error_of(fault)),
        },
{
    match outcome {
        Ok(raw) => Ok(Temperature::from_register(raw)),
        Err(fault) => Err(protocol_error(fault)),
    }
}

} // verus!
