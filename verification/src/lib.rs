//! Verified core of a single-wire thermometer appliance: sensor addresses and
//! their checksum, temperature decoding, the character display's contents and
//! the control loop's decisions.

pub mod address;
pub mod bus;
pub mod crc;
pub mod decimal;
pub mod display;
pub mod monitor;
pub mod sensor;
pub mod temperature;
