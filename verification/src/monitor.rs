//! The control loop's decisions: what to ask of the bus next, what to put on
//! the display, and what to report, given what the last request came back
//! with.

use vstd::prelude::*;
use crate::address::{checksum_holds, DeviceAddress};
use crate::bus::{reset_result, BusFault, ResetOutcome, SearchOutcome};
use crate::decimal::{decimal, lemma_decimal_length};
use crate::display::{
    blanks, codes, lemma_overwrite_leaves_no_residue, lemma_print, lemma_print_joined,
    lemma_print_one, DisplayCommand, DisplayRenderer, Screen,
};
use crate::sensor::{error_of, reading, ProtocolError, Resolution, SENSOR_FAMILY};
use crate::temperature::{fraction, lemma_split_range, whole_degrees, Temperature};

verus! {

/// Columns of the panel.
pub const PANEL_COLS: u8 = 16;

/// Rows of the panel.
pub const PANEL_ROWS: u8 = 2;

/// Cells of the second row that a reading may take.
pub const MSG_LEN: usize = 12;

/// The mark that frames the heading.
pub const MALE_SIGN: [u8; 8] = [
    0b00000,
    0b00111,
    0b00011,
    0b00101,
    0b11110,
    0b10010,
    0b10010,
    0b11110,
];

/// Glyph slot of the heading's mark.
pub const MALE_SIGN_SLOT: u8 = 0;

/// The degree sign.
pub const DEGREE_SIGN: [u8; 8] = [
    0b00110,
    0b01001,
    0b00110,
    0b00000,
    0b00000,
    0b00000,
    0b00000,
    0b00000,
];

/// Glyph slot of the degree sign.
pub const DEGREE_SLOT: u8 = 1;

/// Character code of the minus sign.
pub const MINUS: u8 = 0x2D;

/// Character code of the decimal point.
pub const POINT: u8 = 0x2E;

/// Character code of the unit, the letter C.
pub const UNIT: u8 = 0x43;

/// The magnitude of a number.
pub open spec fn magnitude(value: int) -> int {
    if value < 0 {
        -value
    } else {
        value
    }
}

/// A reading as the display shows it: a minus sign if it lies below zero,
/// the whole degrees, a point, the ten-thousandths as they are counted, the
/// degree sign and the unit.
pub open spec fn reading_text(whole: int, fraction: int) -> Seq<u8> {
    (if whole < 0 || fraction < 0 {
        seq![MINUS]
    } else {
        Seq::<u8>::empty()
    }) + codes(decimal(magnitude(whole))) + seq![POINT] + codes(decimal(magnitude(fraction)))
        + seq![DEGREE_SLOT, UNIT]
}

/// The panel after a reading has replaced the one shown before.
pub open spec fn reading_shown(screen: Screen, whole: int, fraction: int) -> Screen {
    screen.clear_region(0, 1, MSG_LEN as nat).print(reading_text(whole, fraction))
}

/// Every reading of the sensor's range fits the cells kept for it.
pub proof fn lemma_reading_fits(whole: int, fraction: int)
    requires
        -2048 <= whole <= 2047,
        -9375 <= fraction <= 9375,
    ensures
        5 <= reading_text(whole, fraction).len() <= MSG_LEN,
{
    lemma_decimal_length(magnitude(whole));
    lemma_decimal_length(magnitude(fraction));
}

/// A new reading leaves nothing of the old one: whatever the panel showed,
/// the cells kept for the reading then show the new reading followed by
/// blanks, and every other cell shows what it showed before.
pub proof fn lemma_reading_replaces_reading(screen: Screen, raw: u16)
    requires
        screen.well_formed(),
        screen.cols == PANEL_COLS,
        screen.rows == PANEL_ROWS,
    ensures
        reading_shown(screen, whole_degrees(raw), fraction(raw)).lines[1].subrange(
            0,
            MSG_LEN as int,
        ) == reading_text(whole_degrees(raw), fraction(raw)) + blanks(
            (MSG_LEN - reading_text(whole_degrees(raw), fraction(raw)).len()) as nat,
        ),
        forall|r: int, c: int|
            0 <= r < PANEL_ROWS && 0 <= c < PANEL_COLS && !(r == 1 && c < MSG_LEN)
                ==> #[trigger] reading_shown(
                screen,
                whole_degrees(raw),
                fraction(raw),
            ).lines[r][c] == screen.lines[r][c],
{
    lemma_split_range(raw);
    lemma_reading_fits(whole_degrees(raw), fraction(raw));
    lemma_overwrite_leaves_no_residue(
        screen,
        0,
        1,
        MSG_LEN as nat,
        reading_text(whole_degrees(raw), fraction(raw)),
    );
}

/// Replaces the reading on the second row: blanks the cells kept for it and
/// prints the new one from the row's start.
pub fn show_reading(display: &mut DisplayRenderer, reading: &Temperature)
    requires
        old(display)@.well_formed(),
        old(display)@.cols == PANEL_COLS,
        old(display)@.rows == PANEL_ROWS,
    ensures
        final(display)@ == reading_shown(old(display)@, reading@.0, reading@.1),
        final(display)@.well_formed(),
        final(display)@.cols == PANEL_COLS,
        final(display)@.rows == PANEL_ROWS,
{
    let whole: i16 = reading.integer();
    let part: i16 = reading.fraction();
    let whole_size: i16 = if whole < 0 {
        -whole
    } else {
        whole
    };
    let part_size: i16 = if part < 0 {
        -part
    } else {
        part
    };
    let ghost sign: Seq<u8> = if whole < 0 || part < 0 {
        seq![MINUS]
    } else {
        Seq::<u8>::empty()
    };
    let ghost whole_text = codes(decimal(whole_size as int));
    let ghost part_text = codes(decimal(part_size as int));
    proof {
        lemma_decimal_length(whole_size as int);
        lemma_decimal_length(part_size as int);
        reveal_strlit(".");
        reveal_strlit("C");
        assert(codes("."@) =~= seq![POINT]);
        assert(codes("C"@) =~= seq![UNIT]);
    }
    display.clear_region(0, 1, MSG_LEN);
    let ghost cleared = display@;
    proof {
        lemma_print(old(display)@.move_to(0, 1), blanks(MSG_LEN as nat));
    }
    if reading.is_negative() {
        display.write_char(MINUS);
    }
    proof {
        lemma_print_one(cleared, MINUS);
        lemma_print(cleared, sign);
    }
    display.print_number(whole_size);
    proof {
        lemma_print_joined(cleared, sign, whole_text);
        lemma_print(cleared, sign + whole_text);
    }
    display.print(".");
    proof {
        lemma_print_joined(cleared, sign + whole_text, seq![POINT]);
        lemma_print(cleared, sign + whole_text + seq![POINT]);
    }
    display.print_number(part_size);
    proof {
        lemma_print_joined(cleared, sign + whole_text + seq![POINT], part_text);
        lemma_print(cleared, sign + whole_text + seq![POINT] + part_text);
    }
    display.write_char(DEGREE_SLOT);
    display.print("C");
    proof {
        let body = sign + whole_text + seq![POINT] + part_text;
        assert(display@ == cleared.print(body).put(DEGREE_SLOT).put(UNIT)) by {
            lemma_print_one(cleared.print(body).put(DEGREE_SLOT), UNIT);
        }
        assert(cleared.print(body).put(DEGREE_SLOT).put(UNIT) == cleared.print(
            body + seq![DEGREE_SLOT, UNIT],
        )) by {
            let tail = seq![DEGREE_SLOT, UNIT];
            assert(tail.drop_last() =~= seq![DEGREE_SLOT]);
            lemma_print_one(cleared.print(body), DEGREE_SLOT);
            lemma_print_joined(cleared, body, tail);
        }
        assert(body + seq![DEGREE_SLOT, UNIT] =~= reading_text(reading@.0, reading@.1));
        lemma_reading_fits(reading@.0, reading@.1);
        lemma_print(cleared, reading_text(reading@.0, reading@.1));
    }
}

/// The heading of the first row: the word between two marks, and an equals
/// sign.
pub open spec fn heading() -> Seq<u8> {
    seq![MALE_SIGN_SLOT] + codes("Temperature"@) + seq![MALE_SIGN_SLOT] + codes(" ="@)
}

/// The panel after it has been set up: switched on, blank but for the
/// heading, both glyphs stored, the cursor mark shown and the write head at
/// the start of the second row.
pub open spec fn set_up(screen: Screen) -> Screen {
    screen.power(true).clear().install(MALE_SIGN_SLOT, MALE_SIGN).install(
        DEGREE_SLOT,
        DEGREE_SIGN,
    ).home().mark_cursor(true).move_to(0, 0).print(heading()).move_to(0, 1)
}

/// Sets the panel up.
pub fn set_up_display(display: &mut DisplayRenderer)
    requires
        old(display)@.well_formed(),
        old(display)@.cols == PANEL_COLS,
        old(display)@.rows == PANEL_ROWS,
    ensures
        final(display)@ == set_up(old(display)@),
        final(display)@.well_formed(),
        final(display)@.cols == PANEL_COLS,
        final(display)@.rows == PANEL_ROWS,
{
    proof {
        reveal_strlit("Temperature");
        reveal_strlit(" =");
    }
    display.set_power(true);
    display.clear();
    display.load_glyph(MALE_SIGN_SLOT, MALE_SIGN);
    display.load_glyph(DEGREE_SLOT, DEGREE_SIGN);
    display.home();
    display.set_cursor_mark(true);
    display.set_cursor(0, 0);
    let ghost origin = display@;
    let ghost word = codes("Temperature"@);
    let ghost tail = codes(" ="@);
    display.write_char(MALE_SIGN_SLOT);
    proof {
        lemma_print_one(origin, MALE_SIGN_SLOT);
        lemma_print(origin, seq![MALE_SIGN_SLOT]);
    }
    display.print("Temperature");
    proof {
        lemma_print_joined(origin, seq![MALE_SIGN_SLOT], word);
        lemma_print(origin, seq![MALE_SIGN_SLOT] + word);
    }
    display.write_char(MALE_SIGN_SLOT);
    proof {
        lemma_print_one(origin.print(seq![MALE_SIGN_SLOT] + word), MALE_SIGN_SLOT);
        lemma_print_joined(origin, seq![MALE_SIGN_SLOT] + word, seq![MALE_SIGN_SLOT]);
        lemma_print(origin, seq![MALE_SIGN_SLOT] + word + seq![MALE_SIGN_SLOT]);
    }
    display.print(" =");
    proof {
        lemma_print_joined(origin, seq![MALE_SIGN_SLOT] + word + seq![MALE_SIGN_SLOT], tail);
        lemma_print(origin, heading());
    }
    display.set_cursor(0, 1);
}

/// Where the control loop stands.
#[derive(Clone, Copy, Debug, PartialEq, Eq)]
pub enum Phase {
    /// Waiting for the outcome of the first bus reset.
    Booting,
    /// Walking the bus for the next device.
    Searching,
    /// Waiting for a sensor to confirm that it started a conversion.
    Converting(DeviceAddress),
    /// Waiting for the conversion to finish.
    Waiting(DeviceAddress, Resolution),
    /// Waiting for the sensor's register.
    Reading(DeviceAddress),
    /// Stopped for good: the bus is unusable.
    Halted,
}

/// What the outside world came back with.
#[derive(Clone, Copy, Debug, PartialEq, Eq)]
pub enum Event {
    /// The bus was reset.
    BusReset(ResetOutcome),
    /// One step of the device search is over.
    Searched(SearchOutcome),
    /// The sensor was told to convert; it reports its resolution.
    ConversionStarted(Result<Resolution, BusFault>),
    /// The requested time has passed.
    Waited,
    /// The sensor's temperature register was read.
    TemperatureRead(Result<u16, BusFault>),
}

/// What the control loop asks for next.
#[derive(Clone, Copy, Debug, PartialEq, Eq)]
pub enum Request {
    /// Reset the bus and report what was seen.
    ResetBus,
    /// Forget the search so far and search from the start.
    BeginSearch,
    /// Search on from where the last step left off.
    ContinueSearch,
    /// Tell the sensor to convert.
    StartConversion(DeviceAddress),
    /// Let this many milliseconds pass.
    Wait(u16),
    /// Read the sensor's temperature register.
    ReadTemperature(DeviceAddress),
    /// Stop.
    Halt,
}

/// What the control loop has to say on the diagnostic channel.
#[derive(Clone, Copy, Debug, PartialEq, Eq)]
pub enum Notice {
    /// No device answered the reset; the appliance stops.
    NoDevice,
    /// A device of a family that is not handled was found and passed over.
    UnknownFamily(u8),
    /// An address came off the bus with a wrong checksum and was dropped.
    CorruptAddress(DeviceAddress),
    /// A sensor was read.
    Reading(Temperature),
    /// A reading was lost.
    Dropped(ProtocolError),
}

/// The control loop's answer to an event.
#[derive(Clone, Debug, PartialEq, Eq)]
pub struct Reaction {
    /// What to report, if anything.
    pub notice: Option<Notice>,
    /// The commands to carry out on the panel, in order.
    pub commands: Vec<DisplayCommand>,
    /// What to do next; its outcome is the next event.
    pub request: Request,
}

/// Whether a found address is that of a sensor to be read: intact and of
/// the handled family.
pub open spec fn is_sensor(address: DeviceAddress) -> bool {
    checksum_holds(address@) && address@[0] == SENSOR_FAMILY
}

/// The request that is open in a phase.
pub open spec fn pending(phase: Phase) -> Request {
    match phase {
        Phase::Booting => Request::ResetBus,
        Phase::Searching => Request::ContinueSearch,
        Phase::Converting(address) => Request::StartConversion(address),
        Phase::Waiting(_, resolution) => Request::Wait(resolution.wait_ms() as u16),
        Phase::Reading(address) => Request::ReadTemperature(address),
        Phase::Halted => Request::Halt,
    }
}

/// Whether the event answers the request that is open in the phase.
pub open spec fn answers(phase: Phase, event: Event) -> bool {
    match (phase, event) {
        (Phase::Booting, Event::BusReset(_)) => true,
        (Phase::Searching, Event::Searched(_)) => true,
        (Phase::Converting(_), Event::ConversionStarted(_)) => true,
        (Phase::Waiting(_, _), Event::Waited) => true,
        (Phase::Reading(_), Event::TemperatureRead(_)) => true,
        _ => false,
    }
}

/// The phase after an event. An event that does not answer the open request
/// changes nothing.
pub open spec fn next_phase(phase: Phase, event: Event) -> Phase {
    match (phase, event) {
        (Phase::Booting, Event::BusReset(outcome)) => if outcome is Presence {
            Phase::Searching
        } else {
            Phase::Halted
        },
        (Phase::Searching, Event::Searched(SearchOutcome::Found(address))) => if is_sensor(
            address,
        ) {
            Phase::Converting(address)
        } else {
            Phase::Searching
        },
        (Phase::Searching, Event::Searched(_)) => Phase::Searching,
        (Phase::Converting(address), Event::ConversionStarted(Ok(resolution))) => Phase::Waiting(
            address,
            resolution,
        ),
        (Phase::Converting(_), Event::ConversionStarted(Err(_))) => Phase::Searching,
        (Phase::Waiting(address, _), Event::Waited) => Phase::Reading(address),
        (Phase::Reading(_), Event::TemperatureRead(_)) => Phase::Searching,
        _ => phase,
    }
}

/// The request after an event: a failed reset stops the appliance; a search
/// that found a sensor has it convert, one that found anything else goes
/// on, one that is over or broke off starts again; a started conversion is
/// waited for, for as long as the resolution it reported takes; then the
/// register is read; and after a reading, or the loss of one, the search
/// goes on.
pub open spec fn next_request(phase: Phase, event: Event) -> Request {
    match (phase, event) {
        (Phase::Booting, Event::BusReset(outcome)) => if outcome is Presence {
            Request::BeginSearch
        } else {
            Request::Halt
        },
        (Phase::Searching, Event::Searched(SearchOutcome::Found(address))) => if is_sensor(
            address,
        ) {
            Request::StartConversion(address)
        } else {
            Request::ContinueSearch
        },
        (Phase::Searching, Event::Searched(_)) => Request::BeginSearch,
        (Phase::Converting(_), Event::ConversionStarted(Ok(resolution))) => Request::Wait(
            resolution.wait_ms() as u16,
        ),
        (Phase::Converting(_), Event::ConversionStarted(Err(_))) => Request::ContinueSearch,
        (Phase::Waiting(address, _), Event::Waited) => Request::ReadTemperature(address),
        (Phase::Reading(_), Event::TemperatureRead(_)) => Request::ContinueSearch,
        _ => pending(phase),
    }
}

/// Whether `notice` is what an event gives rise to.
pub open spec fn reports(phase: Phase, event: Event, notice: Option<Notice>) -> bool {
    match (phase, event) {
        (Phase::Booting, Event::BusReset(outcome)) => if outcome is Presence {
            notice is None
        } else {
            notice == Some(Notice::NoDevice)
        },
        (Phase::Searching, Event::Searched(SearchOutcome::Found(address))) => if !checksum_holds(
            address@,
        ) {
            notice == Some(Notice::CorruptAddress(address))
        } else if address@[0] != SENSOR_FAMILY {
            notice == Some(Notice::UnknownFamily(address@[0]))
        } else {
            notice is None
        },
        (Phase::Converting(_), Event::ConversionStarted(Err(fault))) => notice == Some(
            Notice::Dropped(error_of(fault)),
        ),
        (Phase::Reading(_), Event::TemperatureRead(Ok(raw))) => {
            &&& notice matches Some(Notice::Reading(shown))
            &&& shown@ == (whole_degrees(raw), fraction(raw))
        },
        (Phase::Reading(_), Event::TemperatureRead(Err(fault))) => notice == Some(
            Notice::Dropped(error_of(fault)),
        ),
        _ => notice is None,
    }
}

/// The panel after an event: set up once the bus has answered, showing the
/// new reading once one was read, and unchanged otherwise.
pub open spec fn next_screen(phase: Phase, event: Event, screen: Screen) -> Screen {
    match (phase, event) {
        (Phase::Booting, Event::BusReset(outcome)) => if outcome is Presence {
            set_up(screen)
        } else {
            screen
        },
        (Phase::Reading(_), Event::TemperatureRead(Ok(raw))) => reading_shown(
            screen,
            whole_degrees(raw),
            fraction(raw),
        ),
        _ => screen,
    }
}

/// Whether the event is the first reset coming back without a presence
/// pulse.
pub open spec fn first_reset_failed(phase: Phase, event: Event) -> bool {
    &&& phase is Booting
    &&& event matches Event::BusReset(outcome)
    &&& !(outcome is Presence)
}

/// Only the first reset can stop the appliance: once the bus has answered,
/// no event leads to a halt, and a halted appliance stays halted.
pub proof fn lemma_only_the_first_reset_is_fatal(phase: Phase, event: Event)
    ensures
        next_phase(phase, event) is Halted <==> phase is Halted || first_reset_failed(phase, event),
        phase is Halted ==> next_request(phase, event) is Halt,
        next_request(phase, event) is Halt ==> next_phase(phase, event) is Halted,
{
}

/// A lost reading, a device passed over or a dropped address costs nothing
/// but itself: the panel keeps what it shows, and the search goes on with
/// the next device.
pub proof fn lemma_failures_are_contained(phase: Phase, event: Event, screen: Screen)
    requires
        answers(phase, event),
        match event {
            Event::Searched(SearchOutcome::Found(address)) => !is_sensor(address),
            Event::ConversionStarted(result) => result is Err,
            Event::TemperatureRead(result) => result is Err,
            _ => false,
        },
    ensures
        next_screen(phase, event, screen) == screen,
        next_phase(phase, event) is Searching,
        next_request(phase, event) is ContinueSearch,
{
}

/// The control loop's state, as a specification sees it.
pub struct MonitorState {
    pub phase: Phase,
    pub screen: Screen,
}

/// The control loop of the appliance, one step at a time.
pub struct Monitor {
    phase: Phase,
    display: DisplayRenderer,
}

impl View for Monitor {
    type V = MonitorState;

    closed spec fn view(&self) -> MonitorState {
        MonitorState { phase: self.phase, screen: self.display@ }
    }
}

impl Monitor {
    /// The panel is sound and of the expected size, and no command is
    /// waiting to be handed over.
    pub closed spec fn well_formed(&self) -> bool {
        &&& self.display@.well_formed()
        &&& self.display@.cols == PANEL_COLS
        &&& self.display@.rows == PANEL_ROWS
        &&& self.display@.sent.len() == 0
    }

    /// A control loop that has not done anything yet. Its first request is
    /// a reset of the bus.
    pub fn new() -> (monitor: Monitor)
        ensures
            monitor.well_formed(),
            monitor@.phase == Phase::Booting,
            monitor@.screen == Screen::blank(PANEL_COLS as nat, PANEL_ROWS as nat),
    {
        Monitor { phase: Phase::Booting, display: DisplayRenderer::new(PANEL_COLS, PANEL_ROWS) }
    }

    /// Where the control loop stands.
    pub fn phase(&self) -> (phase: Phase)
        ensures
            phase == self@.phase,
    {
        self.phase
    }

    /// The display as it stands after the commands handed over so far.
    pub fn display(&self) -> (display: &DisplayRenderer)
        ensures
            display@ == self@.screen,
            self.well_formed() ==> display@.well_formed(),
    {
        &self.display
    }

    /// The request whose outcome the control loop is waiting for.
    pub fn pending_request(&self) -> (request: Request)
        ensures
            request == pending(self@.phase),
    {
        match self.phase {
            Phase::Booting => Request::ResetBus,
            Phase::Searching => Request::ContinueSearch,
            Phase::Converting(address) => Request::StartConversion(address),
            Phase::Waiting(_, resolution) => Request::Wait(resolution.time_ms()),
            Phase::Reading(address) => Request::ReadTemperature(address),
            Phase::Halted => Request::Halt,
        }
    }

    /// Takes the outcome of the last request and decides what happens next.
    pub fn step(&mut self, event: Event) -> (reaction: Reaction)
        requires
            old(self).well_formed(),
        ensures
            final(self).well_formed(),
            final(self)@.phase == next_phase(old(self)@.phase, event),
            final(self)@.screen == next_screen(old(self)@.phase, event, old(self)@.screen).flushed(),
            reaction.commands@ == next_screen(old(self)@.phase, event, old(self)@.screen).sent,
            reaction.request == next_request(old(self)@.phase, event),
            reports(old(self)@.phase, event, reaction.notice),
    {
        let mut notice: Option<Notice> = None;
        let request: Request;
        match (self.phase, event) {
            (Phase::Booting, Event::BusReset(outcome)) => {
                match reset_result(outcome) {
                    Ok(_) => {
                        set_up_display(&mut self.display);
                        self.phase = Phase::Searching;
                        request = Request::BeginSearch;
                    },
                    Err(_) => {
                        notice = Some(Notice::NoDevice);
                        self.phase = Phase::Halted;
                        request = Request::Halt;
                    },
                }
            },
            (Phase::Searching, Event::Searched(SearchOutcome::Found(address))) => {
                if !address.is_valid() {
                    notice = Some(Notice::CorruptAddress(address));
                    request = Request::ContinueSearch;
                } else if address.family_code() != SENSOR_FAMILY {
                    notice = Some(Notice::UnknownFamily(address.family_code()));
                    request = Request::ContinueSearch;
                } else {
                    self.phase = Phase::Converting(address);
                    request = Request::StartConversion(address);
                }
            },
            (Phase::Searching, Event::Searched(_)) => {
                request = Request::BeginSearch;
            },
            (Phase::Converting(address), Event::ConversionStarted(Ok(resolution))) => {
                self.phase = Phase::Waiting(address, resolution);
                request = Request::Wait(resolution.time_ms());
            },
            (Phase::Converting(_), Event::ConversionStarted(Err(fault))) => {
                notice = Some(Notice::Dropped(crate::sensor::protocol_error(fault)));
                self.phase = Phase::Searching;
                request = Request::ContinueSearch;
            },
            (Phase::Waiting(address, _), Event::Waited) => {
                self.phase = Phase::Reading(address);
                request = Request::ReadTemperature(address);
            },
            (Phase::Reading(_), Event::TemperatureRead(outcome)) => {
                match reading(outcome) {
                    Ok(measured) => {
                        show_reading(&mut self.display, &measured);
                        notice = Some(Notice::Reading(measured));
                    },
                    Err(error) => {
                        notice = Some(Notice::Dropped(error));
                    },
                }
                self.phase = Phase::Searching;
                request = Request::ContinueSearch;
            },
            _ => {
                request = self.pending_request();
            },
        }
        let commands: Vec<DisplayCommand> = self.display.take_commands();
        Reaction { notice, commands, request }
    }
}

} // verus!
