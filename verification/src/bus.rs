//! What the single-wire bus reports back: the outcome of a reset, of a
//! search step and of a failed transfer, as plain values.

use vstd::prelude::*;
use crate::address::DeviceAddress;

verus! {

/// Why the bus cannot be used.
#[derive(Clone, Copy, Debug, PartialEq, Eq)]
pub enum BusError {
    /// No device answered the reset pulse: nothing is attached, or the line
    /// is not pulled up.
    NoDevice,
}

/// What was seen on the line after a reset pulse.
#[derive(Clone, Copy, Debug, PartialEq, Eq)]
pub enum ResetOutcome {
    /// A device pulled the line low within the sampling window.
    Presence,
    /// The window passed and the line stayed high.
    NoPresence,
    /// The line could not be driven or read, or never went high.
    LineFault,
}

/// Why a transfer on the bus failed.
#[derive(Clone, Copy, Debug, PartialEq, Eq)]
pub enum BusFault {
    /// The line never went high before the reset pulse.
    WireNotHigh,
    /// The data came with a checksum other than the one computed over it.
    CrcMismatch { computed: u8, carried: u8 },
    /// The device is of another family than the driver.
    FamilyCodeMismatch { expected: u8, found: u8 },
    /// The pin could not be driven or read.
    Port,
    /// Anything else the bus driver reports.
    Other,
}

/// What one step of the device search came back with.
#[derive(Clone, Copy, Debug, PartialEq, Eq)]
pub enum SearchOutcome {
    /// The next address on the bus.
    Found(DeviceAddress),
    /// Every branch of the address tree has been walked.
    Exhausted,
    /// The step broke off with a fault on the bus.
    Failed(BusFault),
}

/// Judges a reset: the bus is usable if and only if a presence pulse was
/// seen.
pub fn reset_result(outcome: ResetOutcome) -> (result: Result<(), BusError>)
    ensures
        result is Ok <==> outcome is Presence,
        result is Err ==> result == Err::<(), BusError>(BusError::NoDevice),
{
    match outcome {
        ResetOutcome::Presence => Ok(()),
        ResetOutcome::NoPresence => Err(BusError::NoDevice),
        ResetOutcome::LineFault => Err(BusError::NoDevice),
    }
}

} // verus!
