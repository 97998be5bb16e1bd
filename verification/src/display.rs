//! The character display: what each cell shows, where the next character
//! goes, the custom glyphs, and the commands that bring the panel there.

use vstd::prelude::*;
use crate::decimal::{decimal, decimal_text};

verus! {

/// What an empty cell holds.
pub const BLANK: u8 = 0x20;

/// Custom glyphs the panel can hold at a time.
pub const GLYPH_SLOTS: u8 = 8;

/// The glyph of a slot that nothing was stored in.
pub const EMPTY_GLYPH: [u8; 8] = [0, 0, 0, 0, 0, 0, 0, 0];

/// One instruction for the panel.
#[derive(Clone, Copy, Debug, PartialEq, Eq)]
pub enum DisplayCommand {
    /// Switch the display on or off.
    Power(bool),
    /// Show or hide the cursor mark.
    CursorMark(bool),
    /// Blank every cell and put the write head at the top left.
    Clear,
    /// Put the write head at the top left.
    Home,
    /// Put the write head on a cell.
    SetPosition { col: u8, row: u8 },
    /// Write one character code at the write head, which moves one cell right.
    Write(u8),
    /// Store the bitmap of a custom glyph: eight rows of five pixels.
    SetCharacter { slot: u8, bitmap: [u8; 8] },
}

/// The state of the panel, and the commands issued since they were last taken.
pub struct Screen {
    pub cols: nat,
    pub rows: nat,
    pub lines: Seq<Seq<u8>>,
    pub col: nat,
    pub row: nat,
    pub glyphs: Seq<[u8; 8]>,
    pub lit: bool,
    pub cursor_mark: bool,
    pub sent: Seq<DisplayCommand>,
}

/// `length` blank cells.
pub open spec fn blanks(length: nat) -> Seq<u8> {
    Seq::new(length, |i: int| BLANK)
}

/// The character codes that printing a text sends: each character cut down
/// to its low eight bits.
pub open spec fn codes(text: Seq<char>) -> Seq<u8> {
    text.map_values(|c: char| c as u8)
}

impl Screen {
    /// A panel of the given size right after power-up: all cells blank, no
    /// custom glyphs, display off, cursor mark hidden, nothing sent.
    pub open spec fn blank(cols: nat, rows: nat) -> Screen {
        Screen {
            cols,
            rows,
            lines: Seq::new(rows, |r: int| blanks(cols)),
            col: 0,
            row: 0,
            glyphs: Seq::new(GLYPH_SLOTS as nat, |s: int| EMPTY_GLYPH),
            lit: false,
            cursor_mark: false,
            sent: Seq::empty(),
        }
    }

    /// The grid has the size it claims, and there is a glyph for every slot.
    pub open spec fn well_formed(self) -> bool {
        &&& self.lines.len() == self.rows
        &&& forall|r: int| 0 <= r < self.rows ==> (#[trigger] self.lines[r]).len() == self.cols
        &&& self.glyphs.len() == GLYPH_SLOTS
    }

    /// Whether `length` more characters fit between the write head and the
    /// end of its row.
    pub open spec fn fits(self, length: nat) -> bool {
        length == 0 || (self.row < self.rows && self.col + length <= self.cols)
    }

    /// Whether the cell is on the grid.
    pub open spec fn on_grid(self, col: nat, row: nat) -> bool {
        col < self.cols && row < self.rows
    }

    /// After one character is written at the write head.
    pub open spec fn put(self, code: u8) -> Screen {
        Screen {
            lines: self.lines.update(
                self.row as int,
                self.lines[self.row as int].update(self.col as int, code),
            ),
            col: self.col + 1,
            sent: self.sent.push(DisplayCommand::Write(code)),
            ..self
        }
    }

    /// After the characters are written one by one.
    pub open spec fn print(self, text: Seq<u8>) -> Screen
        decreases text.len(),
    {
        if text.len() == 0 {
            self
        } else {
            self.print(text.drop_last()).put(text.last())
        }
    }

    /// After the write head is moved to a cell.
    pub open spec fn move_to(self, col: nat, row: nat) -> Screen {
        Screen {
            col,
            row,
            sent: self.sent.push(DisplayCommand::SetPosition { col: col as u8, row: row as u8 }),
            ..self
        }
    }

    /// After `length` cells from (`col`, `row`) on are blanked and the write
    /// head is back at the first of them.
    pub open spec fn clear_region(self, col: nat, row: nat, length: nat) -> Screen {
        self.move_to(col, row).print(blanks(length)).move_to(col, row)
    }

    /// After the whole panel is blanked.
    pub open spec fn clear(self) -> Screen {
        Screen {
            lines: Seq::new(self.rows, |r: int| blanks(self.cols)),
            col: 0,
            row: 0,
            sent: self.sent.push(DisplayCommand::Clear),
            ..self
        }
    }

    /// After the write head returns to the top left.
    pub open spec fn home(self) -> Screen {
        Screen { col: 0, row: 0, sent: self.sent.push(DisplayCommand::Home), ..self }
    }

    /// After the display is switched on or off.
    pub open spec fn power(self, on: bool) -> Screen {
        Screen { lit: on, sent: self.sent.push(DisplayCommand::Power(on)), ..self }
    }

    /// After the cursor mark is shown or hidden.
    pub open spec fn mark_cursor(self, shown: bool) -> Screen {
        Screen {
            cursor_mark: shown,
            sent: self.sent.push(DisplayCommand::CursorMark(shown)),
            ..self
        }
    }

    /// After a custom glyph is stored. Storing moves the panel's write head
    /// into glyph memory, so the head is sent back to where it was.
    pub open spec fn install(self, slot: u8, bitmap: [u8; 8]) -> Screen {
        Screen {
            glyphs: self.glyphs.update(slot as int, bitmap),
            sent: self.sent.push(DisplayCommand::SetCharacter { slot, bitmap }).push(
                DisplayCommand::SetPosition { col: self.col as u8, row: self.row as u8 },
            ),
            ..self
        }
    }

    /// After the commands sent so far are taken away.
    pub open spec fn flushed(self) -> Screen {
        Screen { sent: Seq::empty(), ..self }
    }
}

/// The display as the appliance drives it: it keeps what the panel shows and
/// queues the commands that make the panel show it.
pub struct DisplayRenderer {
    cols: u8,
    rows: u8,
    lines: Vec<Vec<u8>>,
    col: u8,
    row: u8,
    glyphs: Vec<[u8; 8]>,
    lit: bool,
    cursor_mark: bool,
    pending: Vec<DisplayCommand>,
}

impl View for DisplayRenderer {
    type V = Screen;

    closed spec fn view(&self) -> Screen {
        Screen {
            cols: self.cols as nat,
            rows: self.rows as nat,
            lines: Seq::new(self.lines@.len(), |r: int| self.lines@[r]@),
            col: self.col as nat,
            row: self.row as nat,
            glyphs: self.glyphs@,
            lit: self.lit,
            cursor_mark: self.cursor_mark,
            sent: self.pending@,
        }
    }
}

impl DisplayRenderer {
    /// A panel of `cols` by `rows` cells right after power-up.
    pub fn new(cols: u8, rows: u8) -> (display: DisplayRenderer)
        ensures
            display@ == Screen::blank(cols as nat, rows as nat),
            display@.well_formed(),
    {
        let mut lines: Vec<Vec<u8>> = Vec::new();
        let mut r: u8 = 0;
        while r < rows
            invariant
                r <= rows,
                lines@.len() == r,
                forall|i: int| 0 <= i < r ==> (#[trigger] lines@[i])@ == blanks(cols as nat),
            decreases rows - r,
        {
            lines.push(blank_line(cols));
            r = r + 1;
        }
        let mut glyphs: Vec<[u8; 8]> = Vec::new();
        let mut s: u8 = 0;
        while s < GLYPH_SLOTS
            invariant
                s <= GLYPH_SLOTS,
                glyphs@.len() == s,
                forall|i: int| 0 <= i < s ==> #[trigger] glyphs@[i] == EMPTY_GLYPH,
            decreases GLYPH_SLOTS - s,
        {
            glyphs.push(EMPTY_GLYPH);
            s = s + 1;
        }
        let display = DisplayRenderer {
            cols,
            rows,
            lines,
            col: 0,
            row: 0,
            glyphs,
            lit: false,
            cursor_mark: false,
            pending: Vec::new(),
        };
        assert(display@.lines =~= Screen::blank(cols as nat, rows as nat).lines);
        assert(display@.glyphs =~= Screen::blank(cols as nat, rows as nat).glyphs);
        display
    }

    /// Cells in a row.
    pub fn cols(&self) -> (cols: u8)
        ensures
            cols == self@.cols,
    {
        self.cols
    }

    /// Rows of the panel.
    pub fn rows(&self) -> (rows: u8)
        ensures
            rows == self@.rows,
    {
        self.rows
    }

    /// Column and row of the write head.
    pub fn cursor(&self) -> (at: (u8, u8))
        ensures
            at.0 == self@.col,
            at.1 == self@.row,
    {
        (self.col, self.row)
    }

    /// Whether the display is switched on.
    pub fn is_on(&self) -> (lit: bool)
        ensures
            lit == self@.lit,
    {
        self.lit
    }

    /// Whether the cursor mark is shown.
    pub fn cursor_visible(&self) -> (shown: bool)
        ensures
            shown == self@.cursor_mark,
    {
        self.cursor_mark
    }

    /// The character code a cell shows.
    pub fn cell(&self, col: u8, row: u8) -> (code: u8)
        requires
            self@.well_formed(),
            self@.on_grid(col as nat, row as nat),
        ensures
            code == self@.lines[row as int][col as int],
    {
        assert(self@.lines[row as int].len() == self@.cols);
        self.lines[row as usize][col as usize]
    }

    /// The character codes a row shows, left to right.
    pub fn line(&self, row: u8) -> (shown: Vec<u8>)
        requires
            self@.well_formed(),
            row < self@.rows,
        ensures
            shown@ == self@.lines[row as int],
    {
        let mut shown: Vec<u8> = Vec::new();
        let mut col: usize = 0;
        assert(self@.lines[row as int].len() == self@.cols);
        while col < self.lines[row as usize].len()
            invariant
                row < self.lines@.len(),
                col <= self.lines@[row as int]@.len(),
                shown@ == self.lines@[row as int]@.take(col as int),
            decreases self.lines@[row as int]@.len() - col,
        {
            shown.push(self.lines[row as usize][col]);
            assert(self.lines@[row as int]@.take(col + 1) =~= self.lines@[row as int]@.take(
                col as int,
            ).push(self.lines@[row as int]@[col as int]));
            col = col + 1;
        }
        assert(self.lines@[row as int]@.take(col as int) == self.lines@[row as int]@);
        shown
    }

    /// The bitmap stored in a glyph slot.
    pub fn glyph(&self, slot: u8) -> (bitmap: [u8; 8])
        requires
            self@.well_formed(),
            slot < GLYPH_SLOTS,
        ensures
            bitmap == self@.glyphs[slot as int],
    {
        self.glyphs[slot as usize]
    }

    /// Hands over the commands queued since the last call, oldest first. The
    /// panel shows what this display holds once they have all been carried out.
    pub fn take_commands(&mut self) -> (commands: Vec<DisplayCommand>)
        ensures
            commands@ == old(self)@.sent,
            final(self)@ == old(self)@.flushed(),
            old(self)@.well_formed() ==> final(self)@.well_formed(),
    {
        let mut commands: Vec<DisplayCommand> = Vec::new();
        std::mem::swap(&mut commands, &mut self.pending);
        commands
    }

    /// Writes one character at the write head and moves the head one cell to
    /// the right. The head must stand on the grid: what the panel does with a
    /// character written past the end of a row is not defined.
    pub fn write_char(&mut self, code: u8)
        requires
            old(self)@.well_formed(),
            old(self)@.fits(1),
        ensures
            final(self)@ == old(self)@.put(code),
            final(self)@.well_formed(),
    {
        assert(self@.lines[self.row as int].len() == self@.cols);
        let row: usize = self.row as usize;
        let col: usize = self.col as usize;
        self.lines[row][col] = code;
        self.col = self.col + 1;
        self.pending.push(DisplayCommand::Write(code));
        assert(self@.lines =~~= old(self)@.put(code).lines);
    }

    /// Prints a text from the write head on, one cell per character. The text
    /// must fit between the write head and the end of its row.
    pub fn print(&mut self, text: &str)
        requires
            old(self)@.well_formed(),
            old(self)@.fits(text@.len()),
        ensures
            final(self)@ == old(self)@.print(codes(text@)),
            final(self)@.well_formed(),
    {
        let ghost start = self@;
        let ghost all = codes(text@);
        let length: usize = text.unicode_len();
        let mut done: usize = 0;
        while done < length
            invariant
                done <= length,
                length == text@.len(),
                all == codes(text@),
                start.well_formed(),
                start.fits(text@.len()),
                self@.well_formed(),
                self@ == start.print(all.take(done as int)),
            decreases length - done,
        {
            let c: char = text.get_char(done);
            let code: u8 = #[verifier::truncate]
            (c as u8);
            proof {
                lemma_print(start, all.take(done as int));
                assert(all.take(done + 1).drop_last() == all.take(done as int));
            }
            self.write_char(code);
            done = done + 1;
        }
        assert(all.take(done as int) == all);
    }

    /// Prints a number in decimal notation from the write head on. The
    /// notation must fit between the write head and the end of its row.
    pub fn print_number(&mut self, value: i16)
        requires
            old(self)@.well_formed(),
            old(self)@.fits(decimal(value as int).len()),
        ensures
            final(self)@ == old(self)@.print(codes(decimal(value as int))),
            final(self)@.well_formed(),
    {
        let text: String = decimal_text(value);
        self.print(text.as_str());
    }

    /// Moves the write head to a cell of the grid.
    pub fn set_cursor(&mut self, col: u8, row: u8)
        requires
            old(self)@.well_formed(),
            old(self)@.on_grid(col as nat, row as nat),
        ensures
            final(self)@ == old(self)@.move_to(col as nat, row as nat),
            final(self)@.well_formed(),
    {
        self.col = col;
        self.row = row;
        self.pending.push(DisplayCommand::SetPosition { col, row });
    }

    /// Blanks `length` cells from (`col`, `row`) on and leaves the write head
    /// on the first of them, ready for the text that replaces what stood
    /// there. The cells must lie within one row.
    pub fn clear_region(&mut self, col: u8, row: u8, length: usize)
        requires
            old(self)@.well_formed(),
            old(self)@.on_grid(col as nat, row as nat),
            col + length <= old(self)@.cols,
        ensures
            final(self)@ == old(self)@.clear_region(col as nat, row as nat, length as nat),
            final(self)@.well_formed(),
    {
        self.set_cursor(col, row);
        let ghost start = self@;
        let mut done: usize = 0;
        while done < length
            invariant
                done <= length,
                start.well_formed(),
                start.col == col,
                start.row == row,
                start.on_grid(col as nat, row as nat),
                col + length <= start.cols,
                self@.well_formed(),
                self@ == start.print(blanks(done as nat)),
            decreases length - done,
        {
            proof {
                lemma_print(start, blanks(done as nat));
                assert(blanks((done + 1) as nat).drop_last() == blanks(done as nat));
            }
            self.write_char(BLANK);
            done = done + 1;
        }
        proof {
            lemma_print(start, blanks(length as nat));
        }
        self.set_cursor(col, row);
    }

    /// Stores a custom glyph of five by eight pixels in one of the slots; a
    /// glyph stored there before is gone. Cells that show the slot's
    /// character code show the new glyph at once.
    pub fn load_glyph(&mut self, slot: u8, bitmap: [u8; 8])
        requires
            old(self)@.well_formed(),
            slot < GLYPH_SLOTS,
        ensures
            final(self)@ == old(self)@.install(slot, bitmap),
            final(self)@.well_formed(),
    {
        self.glyphs[slot as usize] = bitmap;
        self.pending.push(DisplayCommand::SetCharacter { slot, bitmap });
        self.pending.push(DisplayCommand::SetPosition { col: self.col, row: self.row });
    }

    /// Blanks the whole panel and puts the write head at the top left.
    pub fn clear(&mut self)
        requires
            old(self)@.well_formed(),
        ensures
            final(self)@ == old(self)@.clear(),
            final(self)@.well_formed(),
    {
        let mut r: usize = 0;
        while r < self.lines.len()
            invariant
                r <= self.lines@.len(),
                self.lines@.len() == old(self).lines@.len(),
                self.cols == old(self).cols,
                self.rows == old(self).rows,
                self.rows == self.lines@.len(),
                self.glyphs == old(self).glyphs,
                self.lit == old(self).lit,
                self.cursor_mark == old(self).cursor_mark,
                self.pending == old(self).pending,
                forall|i: int| 0 <= i < r ==> (#[trigger] self.lines@[i])@ == blanks(self.cols as nat),
            decreases self.lines@.len() - r,
        {
            self.lines[r] = blank_line(self.cols);
            r = r + 1;
        }
        self.col = 0;
        self.row = 0;
        self.pending.push(DisplayCommand::Clear);
        assert(self@.lines =~= old(self)@.clear().lines);
    }

    /// Puts the write head at the top left.
    pub fn home(&mut self)
        requires
            old(self)@.well_formed(),
        ensures
            final(self)@ == old(self)@.home(),
            final(self)@.well_formed(),
    {
        self.col = 0;
        self.row = 0;
        self.pending.push(DisplayCommand::Home);
    }

    /// Switches the display on or off; the cells keep what they show.
    pub fn set_power(&mut self, on: bool)
        requires
            old(self)@.well_formed(),
        ensures
            final(self)@ == old(self)@.power(on),
            final(self)@.well_formed(),
    {
        self.lit = on;
        self.pending.push(DisplayCommand::Power(on));
    }

    /// Shows or hides the cursor mark.
    pub fn set_cursor_mark(&mut self, shown: bool)
        requires
            old(self)@.well_formed(),
        ensures
            final(self)@ == old(self)@.mark_cursor(shown),
            final(self)@.well_formed(),
    {
        self.cursor_mark = shown;
        self.pending.push(DisplayCommand::CursorMark(shown));
    }
}

/// A row of blank cells.
fn blank_line(cols: u8) -> (line: Vec<u8>)
    ensures
        line@ == blanks(cols as nat),
{
    let mut line: Vec<u8> = Vec::new();
    let mut c: u8 = 0;
    while c < cols
        invariant
            c <= cols,
            line@ == blanks(c as nat),
        decreases cols - c,
    {
        line.push(BLANK);
        c = c + 1;
        assert(line@ =~= blanks(c as nat));
    }
    line
}

/// Writing a text that fits changes the cells under it and nothing else: the
/// text stands where the write head was, the head rests behind it, and one
/// write command per character was sent.
pub proof fn lemma_print(screen: Screen, text: Seq<u8>)
    requires
        screen.well_formed(),
        screen.fits(text.len()),
    ensures
        screen.print(text).well_formed(),
        screen.print(text).cols == screen.cols,
        screen.print(text).rows == screen.rows,
        screen.print(text).col == screen.col + text.len(),
        screen.print(text).row == screen.row,
        screen.print(text).glyphs == screen.glyphs,
        screen.print(text).lit == screen.lit,
        screen.print(text).cursor_mark == screen.cursor_mark,
        screen.print(text).sent == screen.sent + text.map_values(
            |code: u8| DisplayCommand::Write(code),
        ),
        forall|r: int|
            0 <= r < screen.rows && r != screen.row ==> #[trigger] screen.print(text).lines[r]
                == screen.lines[r],
        text.len() > 0 ==> screen.print(text).lines[screen.row as int] == screen.lines[screen.row as int].subrange(
            0,
            screen.col as int,
        ) + text + screen.lines[screen.row as int].subrange(
            (screen.col + text.len()) as int,
            screen.cols as int,
        ),
    decreases text.len(),
{
    let writes = |code: u8| DisplayCommand::Write(code);
    if text.len() == 0 {
        assert(screen.sent + text.map_values(writes) =~= screen.sent);
    } else {
        let before = screen.print(text.drop_last());
        lemma_print(screen, text.drop_last());
        let after = before.put(text.last());
        let row = screen.row as int;
        assert(after.sent =~= screen.sent + text.map_values(writes));
        assert(after.lines[row] =~= screen.lines[row].subrange(0, screen.col as int) + text
            + screen.lines[row].subrange((screen.col + text.len()) as int, screen.cols as int)) by {
            if text.len() == 1 {
                assert(before == screen);
            }
        }
        assert(after.well_formed());
    }
}

/// Printing one text after another is printing them joined.
pub proof fn lemma_print_joined(screen: Screen, first: Seq<u8>, second: Seq<u8>)
    ensures
        screen.print(first).print(second) == screen.print(first + second),
    decreases second.len(),
{
    if second.len() == 0 {
        assert(first + second =~= first);
    } else {
        lemma_print_joined(screen, first, second.drop_last());
        assert((first + second).drop_last() =~= first + second.drop_last());
    }
}

/// Printing a single character is writing it.
pub proof fn lemma_print_one(screen: Screen, code: u8)
    ensures
        screen.print(seq![code]) == screen.put(code),
        screen.print(Seq::<u8>::empty()) == screen,
{
    assert(seq![code].drop_last() =~= Seq::<u8>::empty());
    assert(screen.print(seq![code].drop_last()) == screen);
}

/// Blanking a region and then printing a text no longer than the region
/// leaves no trace of what stood there: the region shows the text followed
/// by blanks, and every cell outside it shows what it showed before.
pub proof fn lemma_overwrite_leaves_no_residue(
    screen: Screen,
    col: nat,
    row: nat,
    length: nat,
    text: Seq<u8>,
)
    requires
        screen.well_formed(),
        screen.on_grid(col, row),
        col + length <= screen.cols,
        text.len() <= length,
    ensures
        screen.clear_region(col, row, length).print(text).well_formed(),
        screen.clear_region(col, row, length).print(text).col == col + text.len(),
        screen.clear_region(col, row, length).print(text).row == row,
        screen.clear_region(col, row, length).print(text).lines[row as int].subrange(
            col as int,
            (col + length) as int,
        ) == text + blanks((length - text.len()) as nat),
        forall|r: int, c: int|
            0 <= r < screen.rows && 0 <= c < screen.cols && !(r == row && col <= c < col + length)
                ==> #[trigger] screen.clear_region(col, row, length).print(text).lines[r][c]
                == screen.lines[r][c],
{
    let moved = screen.move_to(col, row);
    let blanked = moved.print(blanks(length));
    let cleared = blanked.move_to(col, row);
    let after = cleared.print(text);
    lemma_print(moved, blanks(length));
    lemma_print(cleared, text);
    assert(cleared.lines == blanked.lines);
    assert(after.lines[row as int].subrange(col as int, (col + length) as int) =~= text + blanks(
        (length - text.len()) as nat,
    ));
    assert forall|r: int, c: int|
        0 <= r < screen.rows && 0 <= c < screen.cols && !(r == row && col <= c < col
            + length) implies #[trigger] after.lines[r][c] == screen.lines[r][c] by {
        if r != row {
            assert(after.lines[r] == cleared.lines[r]);
            assert(blanked.lines[r] == moved.lines[r]);
        }
    }
}

} // verus!
