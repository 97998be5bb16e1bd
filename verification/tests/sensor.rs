use onewire::ds18b20::MeasureResolution;
use thermometer::bus::{reset_result, BusError, BusFault, ResetOutcome};
use thermometer::sensor::{protocol_error, reading, ProtocolError, Resolution, SENSOR_FAMILY};
use thermometer::temperature::Temperature;

#[test]
fn family_code_is_that_of_the_bus_driver_crate() {
    assert_eq!(SENSOR_FAMILY, 0x28);
    assert_eq!(SENSOR_FAMILY, onewire::ds18b20::FAMILY_CODE);
}

#[test]
fn conversion_times_follow_the_data_sheet() {
    assert_eq!(Resolution::Bits9.time_ms(), 94);
    assert_eq!(Resolution::Bits10.time_ms(), 188);
    assert_eq!(Resolution::Bits11.time_ms(), 375);
    assert_eq!(Resolution::Bits12.time_ms(), 750);
}

#[test]
fn conversion_times_are_those_of_the_bus_driver_crate() {
    assert_eq!(Resolution::Bits9.time_ms(), MeasureResolution::TC8.time_ms());
    assert_eq!(Resolution::Bits10.time_ms(), MeasureResolution::TC4.time_ms());
    assert_eq!(Resolution::Bits11.time_ms(), MeasureResolution::TC2.time_ms());
    assert_eq!(Resolution::Bits12.time_ms(), MeasureResolution::TC.time_ms());
}

#[test]
fn finer_resolution_waits_longer() {
    let ladder = [Resolution::Bits9, Resolution::Bits10, Resolution::Bits11, Resolution::Bits12];
    for pair in ladder.windows(2) {
        assert!(pair[0].time_ms() < pair[1].time_ms());
    }
    assert!(ladder.iter().all(|resolution| resolution.time_ms() <= 750));
}

#[test]
fn checksum_fault_is_a_checksum_error() {
    let fault = BusFault::CrcMismatch { computed: 0x12, carried: 0x34 };
    assert_eq!(protocol_error(fault), ProtocolError::CrcMismatch);
}

#[test]
fn other_faults_are_bus_errors() {
    assert_eq!(protocol_error(BusFault::WireNotHigh), ProtocolError::Bus);
    assert_eq!(protocol_error(BusFault::Port), ProtocolError::Bus);
    assert_eq!(protocol_error(BusFault::Other), ProtocolError::Bus);
    let wrong_family = BusFault::FamilyCodeMismatch { expected: 0x28, found: 0x10 };
    assert_eq!(protocol_error(wrong_family), ProtocolError::Bus);
}

#[test]
fn register_that_was_read_becomes_a_reading() {
    assert_eq!(reading(Ok(0x0191)), Ok(Temperature::from_register(0x0191)));
    let cold = reading(Ok(0xFE6F)).unwrap();
    assert_eq!((cold.integer(), cold.fraction()), (-25, -625));
}

#[test]
fn failed_read_becomes_an_error() {
    let fault = BusFault::CrcMismatch { computed: 1, carried: 2 };
    assert_eq!(reading(Err(fault)), Err(ProtocolError::CrcMismatch));
    assert_eq!(reading(Err(BusFault::WireNotHigh)), Err(ProtocolError::Bus));
}

#[test]
fn reset_without_presence_pulse_reports_no_device() {
    assert_eq!(reset_result(ResetOutcome::NoPresence), Err(BusError::NoDevice));
    assert_eq!(reset_result(ResetOutcome::NoPresence), Err(BusError::NoDevice));
}

#[test]
fn reset_with_a_faulty_line_reports_no_device() {
    assert_eq!(reset_result(ResetOutcome::LineFault), Err(BusError::NoDevice));
}

#[test]
fn reset_with_presence_pulse_succeeds() {
    assert_eq!(reset_result(ResetOutcome::Presence), Ok(()));
}
