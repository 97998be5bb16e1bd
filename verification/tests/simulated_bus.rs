use std::cell::RefCell;
use std::convert::Infallible;
use std::rc::Rc;

use embedded_hal::blocking::delay::DelayUs;
use embedded_hal::digital::v2::{InputPin, OutputPin};
use onewire::ds18b20::{MeasureResolution, DS18B20};
use onewire::{Device, DeviceSearch, Error, OneWire};
use thermometer::address::DeviceAddress;
use thermometer::bus::{BusFault, ResetOutcome, SearchOutcome};
use thermometer::crc::compute_crc8;
use thermometer::monitor::{Event, Monitor, Notice, Request};
use thermometer::sensor::Resolution;
use thermometer::temperature::Temperature;

const SEARCH_ROM: u8 = 0xF0;
const MATCH_ROM: u8 = 0x55;
const CONVERT: u8 = 0x44;
const READ_SCRATCHPAD: u8 = 0xBE;

#[derive(Clone, Copy, PartialEq)]
enum Turn {
    Bit,
    Complement,
    Direction,
}

#[derive(Clone)]
enum Mode {
    Idle,
    RomCommand { got: u8, bits: u8 },
    Search { index: usize, turn: Turn },
    Match { index: usize },
    Function { got: u8, bits: u8 },
    Sending { bytes: Vec<u8>, index: usize },
}

struct Chip {
    address: [u8; 8],
    register: u16,
    corrupt_scratchpad: bool,
    mode: Mode,
}

impl Chip {
    fn address_bit(&self, index: usize) -> bool {
        self.address[index / 8] & (1 << (index % 8)) != 0
    }

    fn scratchpad(&self) -> Vec<u8> {
        let [low, high] = self.register.to_le_bytes();
        let mut bytes = vec![low, high, 0x4B, 0x46, 0x7F, 0xFF, 0x0C, 0x10];
        let mut crc = compute_crc8(0, &bytes);
        if self.corrupt_scratchpad {
            crc ^= 0x01;
        }
        bytes.push(crc);
        bytes
    }

    /// One time slot; returns whether the chip pulls the line low in it.
    fn slot(&mut self, written: bool) -> bool {
        let mode = self.mode.clone();
        match mode {
            Mode::Idle => false,
            Mode::RomCommand { got, bits } => {
                let got = got | (u8::from(written) << bits);
                self.mode = if bits < 7 {
                    Mode::RomCommand { got, bits: bits + 1 }
                } else if got == SEARCH_ROM {
                    Mode::Search { index: 0, turn: Turn::Bit }
                } else if got == MATCH_ROM {
                    Mode::Match { index: 0 }
                } else {
                    Mode::Idle
                };
                false
            }
            Mode::Search { index, turn } => match turn {
                Turn::Bit => {
                    self.mode = Mode::Search { index, turn: Turn::Complement };
                    !self.address_bit(index)
                }
                Turn::Complement => {
                    self.mode = Mode::Search { index, turn: Turn::Direction };
                    self.address_bit(index)
                }
                Turn::Direction => {
                    self.mode = if written != self.address_bit(index) || index == 63 {
                        Mode::Idle
                    } else {
                        Mode::Search { index: index + 1, turn: Turn::Bit }
                    };
                    false
                }
            },
            Mode::Match { index } => {
                self.mode = if written != self.address_bit(index) {
                    Mode::Idle
                } else if index == 63 {
                    Mode::Function { got: 0, bits: 0 }
                } else {
                    Mode::Match { index: index + 1 }
                };
                false
            }
            Mode::Function { got, bits } => {
                let got = got | (u8::from(written) << bits);
                self.mode = if bits < 7 {
                    Mode::Function { got, bits: bits + 1 }
                } else if got == READ_SCRATCHPAD {
                    Mode::Sending { bytes: self.scratchpad(), index: 0 }
                } else {
                    Mode::Idle
                };
                false
            }
            Mode::Sending { bytes, index } => {
                let bit = bytes[index / 8] & (1 << (index % 8)) != 0;
                self.mode = if index + 1 < bytes.len() * 8 {
                    Mode::Sending { bytes, index: index + 1 }
                } else {
                    Mode::Idle
                };
                !bit
            }
        }
    }
}

struct Line {
    now: u64,
    driven_low_since: Option<u64>,
    chips_hold_low_until: u64,
    chips: Vec<Chip>,
    stuck_low: bool,
    waited_ms: Vec<u16>,
}

impl Line {
    fn release(&mut self) {
        let Some(since) = self.driven_low_since.take() else {
            return;
        };
        let low_for = self.now - since;
        if low_for == 0 {
            return;
        }
        if low_for >= 480 {
            for chip in self.chips.iter_mut() {
                chip.mode = Mode::RomCommand { got: 0, bits: 0 };
            }
            if !self.chips.is_empty() {
                self.chips_hold_low_until = self.now + 100;
            }
            return;
        }
        let written = low_for < 15;
        let mut pulled = false;
        for chip in self.chips.iter_mut() {
            pulled |= chip.slot(written);
        }
        if pulled {
            self.chips_hold_low_until = since + 30;
        }
    }

    fn high(&self) -> bool {
        !self.stuck_low && self.driven_low_since.is_none() && self.now >= self.chips_hold_low_until
    }
}

#[derive(Clone)]
struct Bus(Rc<RefCell<Line>>);

impl Bus {
    fn with(chips: Vec<Chip>) -> Bus {
        Bus(Rc::new(RefCell::new(Line {
            now: 1000,
            driven_low_since: None,
            chips_hold_low_until: 0,
            chips,
            stuck_low: false,
            waited_ms: Vec::new(),
        })))
    }
}

impl OutputPin for Bus {
    type Error = Infallible;

    fn set_low(&mut self) -> Result<(), Infallible> {
        let mut line = self.0.borrow_mut();
        if line.driven_low_since.is_none() {
            line.driven_low_since = Some(line.now);
        }
        Ok(())
    }

    fn set_high(&mut self) -> Result<(), Infallible> {
        self.0.borrow_mut().release();
        Ok(())
    }
}

impl InputPin for Bus {
    type Error = Infallible;

    fn is_high(&self) -> Result<bool, Infallible> {
        Ok(self.0.borrow().high())
    }

    fn is_low(&self) -> Result<bool, Infallible> {
        Ok(!self.0.borrow().high())
    }
}

impl DelayUs<u16> for Bus {
    fn delay_us(&mut self, us: u16) {
        self.0.borrow_mut().now += u64::from(us);
    }
}

fn chip(address: DeviceAddress, register: u16) -> Chip {
    Chip { address: address.bytes, register, corrupt_scratchpad: false, mode: Mode::Idle }
}

fn sensor(serial: u8) -> DeviceAddress {
    DeviceAddress::sealed([0x28, serial, 0x64, 0x1E, 0x0F, serial ^ 0xFF, 0x03])
}

fn fault(error: Error<Infallible>) -> BusFault {
    match error {
        Error::WireNotHigh => BusFault::WireNotHigh,
        Error::CrcMismatch(computed, carried) => BusFault::CrcMismatch { computed, carried },
        Error::FamilyCodeMismatch(expected, found) => {
            BusFault::FamilyCodeMismatch { expected, found }
        }
        Error::PortError(_) => BusFault::Port,
        Error::Debug(_) => BusFault::Other,
    }
}

fn reset_outcome(result: Result<bool, Error<Infallible>>) -> ResetOutcome {
    match result {
        Ok(true) => ResetOutcome::Presence,
        Ok(false) => ResetOutcome::NoPresence,
        Err(_) => ResetOutcome::LineFault,
    }
}

fn search_outcome(result: Result<Option<Device>, Error<Infallible>>) -> SearchOutcome {
    match result {
        Ok(Some(device)) => SearchOutcome::Found(DeviceAddress::new(device.address)),
        Ok(None) => SearchOutcome::Exhausted,
        Err(error) => SearchOutcome::Failed(fault(error)),
    }
}

fn resolution(measured: MeasureResolution) -> Resolution {
    match measured {
        MeasureResolution::TC8 => Resolution::Bits9,
        MeasureResolution::TC4 => Resolution::Bits10,
        MeasureResolution::TC2 => Resolution::Bits11,
        MeasureResolution::TC => Resolution::Bits12,
    }
}

/// Everything one run of the appliance did that can be seen from outside.
struct Run {
    monitor: Monitor,
    notices: Vec<Notice>,
    found: Vec<Vec<DeviceAddress>>,
    halted: bool,
}

/// Drives the control loop over the bus until `passes` searches have come
/// to their end, or the loop halts.
fn run(bus: &Bus, passes: usize) -> Run {
    let mut pin = bus.clone();
    let mut delay = bus.clone();
    let mut wire = OneWire::new(&mut pin, false);
    let mut search = DeviceSearch::new();
    let mut monitor = Monitor::new();
    let mut notices = Vec::new();
    let mut found: Vec<Vec<DeviceAddress>> = vec![Vec::new()];
    let mut request = monitor.pending_request();
    let mut halted = false;
    for _ in 0..10_000 {
        let event = match request {
            Request::ResetBus => Event::BusReset(reset_outcome(wire.reset(&mut delay))),
            Request::BeginSearch | Request::ContinueSearch => {
                if request == Request::BeginSearch {
                    search = DeviceSearch::new();
                }
                let outcome = search_outcome(wire.search_next(&mut search, &mut delay));
                match outcome {
                    SearchOutcome::Found(address) => found.last_mut().unwrap().push(address),
                    _ => {
                        if found.len() == passes {
                            break;
                        }
                        found.push(Vec::new());
                    }
                }
                Event::Searched(outcome)
            }
            Request::StartConversion(address) => {
                let started = DS18B20::new::<Infallible>(Device { address: address.bytes })
                    .and_then(|sensor| sensor.measure_temperature(&mut wire, &mut delay));
                Event::ConversionStarted(started.map(resolution).map_err(fault))
            }
            Request::Wait(ms) => {
                bus.0.borrow_mut().waited_ms.push(ms);
                bus.0.borrow_mut().now += u64::from(ms) * 1000;
                Event::Waited
            }
            Request::ReadTemperature(address) => {
                let read = DS18B20::new::<Infallible>(Device { address: address.bytes })
                    .and_then(|sensor| sensor.read_temperature(&mut wire, &mut delay));
                Event::TemperatureRead(read.map_err(fault))
            }
            Request::Halt => {
                halted = true;
                break;
            }
        };
        let reaction = monitor.step(event);
        notices.extend(reaction.notice);
        request = reaction.request;
    }
    Run { monitor, notices, found, halted }
}

fn sorted(mut addresses: Vec<DeviceAddress>) -> Vec<[u8; 8]> {
    addresses.sort_by_key(|address| address.bytes);
    addresses.iter().map(|address| address.bytes).collect()
}

#[test]
fn reset_on_an_empty_bus_sees_no_presence_and_the_loop_halts() {
    let bus = Bus::with(Vec::new());
    let mut pin = bus.clone();
    let mut delay = bus.clone();
    let mut wire = OneWire::new(&mut pin, false);
    for _ in 0..3 {
        assert_eq!(reset_outcome(wire.reset(&mut delay)), ResetOutcome::NoPresence);
    }
    let outcome = run(&bus, 1);
    assert!(outcome.halted);
    assert_eq!(outcome.notices, vec![Notice::NoDevice]);
    assert!(bus.0.borrow().now < 1_000_000);
}

#[test]
fn reset_on_a_line_stuck_low_halts_the_loop() {
    let bus = Bus::with(vec![chip(sensor(1), 0x0191)]);
    bus.0.borrow_mut().stuck_low = true;
    let outcome = run(&bus, 1);
    assert!(outcome.halted);
    assert_eq!(outcome.notices, vec![Notice::NoDevice]);
}

#[test]
fn search_on_an_empty_bus_yields_nothing_and_ends() {
    let bus = Bus::with(Vec::new());
    let mut pin = bus.clone();
    let mut delay = bus.clone();
    let mut wire = OneWire::new(&mut pin, false);
    let mut search = DeviceSearch::new();
    let first = search_outcome(wire.search_next(&mut search, &mut delay));
    assert_eq!(first, SearchOutcome::Exhausted);
    let mut monitor = Monitor::new();
    monitor.step(Event::BusReset(ResetOutcome::Presence));
    let reaction = monitor.step(Event::Searched(first));
    assert_eq!(reaction.request, Request::BeginSearch);
    assert_eq!(reaction.notice, None);
}

#[test]
fn lone_sensor_is_found_once_per_pass() {
    let bus = Bus::with(vec![chip(sensor(7), 0x0191)]);
    let outcome = run(&bus, 3);
    assert!(!outcome.halted);
    assert_eq!(outcome.found, vec![vec![sensor(7)]; 3]);
}

#[test]
fn every_device_is_found_exactly_once_per_pass() {
    let stranger = DeviceAddress::sealed([0x10, 0x50, 0xA9, 0x0A, 0x02, 0x08, 0x00]);
    let addresses = vec![
        sensor(0x00),
        sensor(0x01),
        sensor(0x02),
        sensor(0x80),
        sensor(0xFF),
        sensor(0x7E),
        stranger,
        DeviceAddress::sealed([0x28, 0, 0, 0, 0, 0, 0]),
        DeviceAddress::sealed([0x28, 0xFF, 0xFF, 0xFF, 0xFF, 0xFF, 0xFF]),
    ];
    for count in 1..=addresses.len() {
        for rotation in 0..count {
            let mut present: Vec<DeviceAddress> = addresses[..count].to_vec();
            present.rotate_left(rotation);
            let bus = Bus::with(present.iter().map(|address| chip(*address, 0x0191)).collect());
            let outcome = run(&bus, 2);
            assert_eq!(outcome.found.len(), 2);
            for pass in outcome.found {
                assert_eq!(pass.len(), count);
                assert!(pass.iter().all(|address| address.is_valid()));
                assert_eq!(sorted(pass), sorted(present.clone()));
            }
        }
    }
}

#[test]
fn sensors_are_read_and_the_last_reading_is_shown() {
    let bus = Bus::with(vec![chip(sensor(1), 0x0191), chip(sensor(2), 0xFE6F)]);
    let outcome = run(&bus, 1);
    let order = &outcome.found[0];
    let register = |address: &DeviceAddress| if *address == sensor(1) { 0x0191 } else { 0xFE6F };
    let expected: Vec<Notice> = order
        .iter()
        .map(|address| Notice::Reading(Temperature::from_register(register(address))))
        .collect();
    assert_eq!(outcome.notices, expected);
    assert_eq!(bus.0.borrow().waited_ms, vec![750, 750]);
    let shown = outcome.monitor.display().line(1);
    let last: &[u8] = if register(&order[1]) == 0x0191 {
        &[b'2', b'5', b'.', b'6', b'2', b'5', 1, b'C']
    } else {
        &[b'-', b'2', b'5', b'.', b'6', b'2', b'5', 1, b'C']
    };
    assert_eq!(shown[..last.len()], *last);
    assert!(shown[last.len()..].iter().all(|cell| *cell == b' '));
}

#[test]
fn device_of_another_family_is_reported_and_not_read() {
    let stranger = DeviceAddress::sealed([0x10, 0x50, 0xA9, 0x0A, 0x02, 0x08, 0x00]);
    let bus = Bus::with(vec![chip(stranger, 0x0191)]);
    let outcome = run(&bus, 2);
    assert_eq!(outcome.notices, vec![Notice::UnknownFamily(0x10); 2]);
    assert!(bus.0.borrow().waited_ms.is_empty());
    assert_eq!(outcome.monitor.display().line(1), vec![b' '; 16]);
}

#[test]
fn device_with_a_corrupt_address_is_dropped_and_the_pass_goes_on() {
    let mut bytes = sensor(9).bytes;
    bytes[7] ^= 0x40;
    let corrupt = DeviceAddress::new(bytes);
    let bus = Bus::with(vec![chip(corrupt, 0x0191), chip(sensor(3), 0x00A2)]);
    let outcome = run(&bus, 1);
    assert_eq!(sorted(outcome.found[0].clone()), sorted(vec![corrupt, sensor(3)]));
    assert!(outcome.notices.contains(&Notice::CorruptAddress(corrupt)));
    assert!(outcome.notices.contains(&Notice::Reading(Temperature::from_register(0x00A2))));
    assert_eq!(outcome.notices.len(), 2);
    assert_eq!(bus.0.borrow().waited_ms, vec![750]);
}

#[test]
fn scratchpad_with_a_wrong_checksum_loses_the_reading_only() {
    let mut broken = chip(sensor(4), 0x0550);
    broken.corrupt_scratchpad = true;
    let bus = Bus::with(vec![broken]);
    let outcome = run(&bus, 2);
    assert!(!outcome.halted);
    assert_eq!(outcome.found, vec![vec![sensor(4)]; 2]);
    assert_eq!(
        outcome.notices,
        vec![Notice::Dropped(thermometer::sensor::ProtocolError::CrcMismatch); 2]
    );
    assert_eq!(outcome.monitor.display().line(1), vec![b' '; 16]);
}
