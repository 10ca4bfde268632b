//! The text-mode terminal: an 80 by 25 grid of character cells, written
//! line after line and scrolled up when the cursor passes the last column.
//!
//! The grid is held here; copying it to video memory is left to the caller.
use vstd::prelude::*;
use crate::mutex::SpinMutex;

verus! {

pub const BUFFER_WIDTH: usize = 80;
pub const BUFFER_HEIGHT: usize = 25;
/// Number of cells of the grid.
pub const BUFFER_CELLS: usize = 2000;
/// The space character, which blank cells show.
pub const BLANK: u8 = 0x20;
/// The line-feed character.
pub const NEWLINE: u8 = 0x0a;

/// The sixteen colours of text mode.
#[derive(Clone, Copy, Debug, PartialEq, Eq, Structural)]
pub enum Colours {
    Black,
    Blue,
    Green,
    Cyan,
    Red,
    Magenta,
    Brown,
    LightGrey,
    DarkGrey,
    LightBlue,
    LightGreen,
    LightCyan,
    LightRed,
    LightMagenta,
    LightBrown,
    White,
}

/// The 4-bit code of colour `c`.
pub open spec fn colour_code(c: Colours) -> u8 {
    match c {
        Colours::Black => 0,
        Colours::Blue => 1,
        Colours::Green => 2,
        Colours::Cyan => 3,
        Colours::Red => 4,
        Colours::Magenta => 5,
        Colours::Brown => 6,
        Colours::LightGrey => 7,
        Colours::DarkGrey => 8,
        Colours::LightBlue => 9,
        Colours::LightGreen => 10,
        Colours::LightCyan => 11,
        Colours::LightRed => 12,
        Colours::LightMagenta => 13,
        Colours::LightBrown => 14,
        Colours::White => 15,
    }
}

impl Colours {
    pub fn code(self) -> (r: u8)
        ensures
            r == colour_code(self),
    {
        match self {
            Colours::Black => 0,
            Colours::Blue => 1,
            Colours::Green => 2,
            Colours::Cyan => 3,
            Colours::Red => 4,
            Colours::Magenta => 5,
            Colours::Brown => 6,
            Colours::LightGrey => 7,
            Colours::DarkGrey => 8,
            Colours::LightBlue => 9,
            Colours::LightGreen => 10,
            Colours::LightCyan => 11,
            Colours::LightRed => 12,
            Colours::LightMagenta => 13,
            Colours::LightBrown => 14,
            Colours::White => 15,
        }
    }
}

/// The attribute byte for a foreground and a background colour.
pub fn rec_colour(foreground: Colours, background: Colours) -> (r: u8)
    ensures
        r == colour_code(background) * 16 + colour_code(foreground),
        r == (colour_code(background) * 16 + colour_code(foreground)) as u8,
{
    background.code() * 16 + foreground.code()
}

/// The cell showing character `ch` with attribute `colour`.
pub open spec fn entry_spec(ch: u8, colour: u8) -> u16 {
    ((colour as u16) * 256 + ch as u16) as u16
}

/// The cell showing character `ch` with attribute `colour`.
pub fn rec_entry(ch: u8, colour: u8) -> (r: u16)
    ensures
        r == entry_spec(ch, colour),
{
    (colour as u16) * 256 + ch as u16
}

/// Index of the cell at `row` and `col`.
pub fn get_offset(row: usize, col: usize) -> (r: usize)
    requires
        row < BUFFER_HEIGHT,
        col < BUFFER_WIDTH,
    ensures
        r == row * BUFFER_WIDTH + col,
        r < BUFFER_CELLS,
{
    row * BUFFER_WIDTH + col
}

/// The terminal's state: the grid, the cursor and the current attribute.
pub struct TermView {
    pub cells: Seq<u16>,
    pub row: int,
    pub col: int,
    pub colour: u8,
}

/// The grid once the rows up to `row` moved up by one and row `row` was
/// blanked.
pub open spec fn scrolled(cells: Seq<u16>, row: int, colour: u8) -> Seq<u16> {
    Seq::new(
        cells.len(),
        |k: int|
            if k < row * 80 {
                cells[k + 80]
            } else if k < row * 80 + 80 {
                entry_spec(32, colour)
            } else {
                cells[k]
            },
    )
}

/// The state after a line break.
pub open spec fn new_line_spec(v: TermView) -> TermView {
    TermView { cells: scrolled(v.cells, v.row, v.colour), col: 0, ..v }
}

/// The state after character `ch` is written: a line break for `\n`;
/// otherwise a line break first when the line is full, then the character
/// at the cursor, which moves one column on.
pub open spec fn put_char_spec(v: TermView, ch: u8) -> TermView {
    if ch == 10 {
        new_line_spec(v)
    } else {
        let w = if v.col >= 80 {
            new_line_spec(v)
        } else {
            v
        };
        TermView {
            cells: w.cells.update(w.row * 80 + w.col, entry_spec(ch, w.colour)),
            col: w.col + 1,
            ..w
        }
    }
}

/// The state after the bytes of `s` are written one after the other.
pub open spec fn put_bytes_spec(v: TermView, s: Seq<u8>) -> TermView
    decreases s.len(),
{
    if s.len() == 0 {
        v
    } else {
        put_char_spec(put_bytes_spec(v, s.drop_last()), s.last())
    }
}

/// A grid of the right size and a cursor inside it.
pub open spec fn term_wf(v: TermView) -> bool {
    &&& v.cells.len() == BUFFER_CELLS
    &&& 0 <= v.row < BUFFER_HEIGHT
    &&& 0 <= v.col <= BUFFER_WIDTH
}

proof fn lemma_put_char_wf(v: TermView, ch: u8)
    requires
        term_wf(v),
    ensures
        term_wf(put_char_spec(v, ch)),
{
    assert(v.row * 80 + 79 < 2000) by (nonlinear_arith)
        requires
            0 <= v.row < 25,
    ;
}

proof fn lemma_put_bytes_wf(v: TermView, s: Seq<u8>)
    requires
        term_wf(v),
    ensures
        term_wf(put_bytes_spec(v, s)),
    decreases s.len(),
{
    if s.len() > 0 {
        lemma_put_bytes_wf(v, s.drop_last());
        lemma_put_char_wf(put_bytes_spec(v, s.drop_last()), s.last());
    }
}

pub struct TermWriter {
    row: usize,
    col: usize,
    colour: u8,
    cells: Vec<u16>,
}

impl View for TermWriter {
    type V = TermView;

    closed spec fn view(&self) -> TermView {
        TermView { cells: self.cells@, row: self.row as int, col: self.col as int, colour: self.colour }
    }
}

impl TermWriter {
    /// An empty grid, the cursor at the start of the last row, attribute 0.
    pub fn new() -> (r: TermWriter)
        ensures
            term_wf(r@),
            r@ == (TermView {
                cells: Seq::new(BUFFER_CELLS as nat, |k: int| 0u16),
                row: BUFFER_HEIGHT - 1,
                col: 0,
                colour: 0,
            }),
    {
        let mut cells: Vec<u16> = Vec::new();
        let mut k: usize = 0;
        while k < BUFFER_CELLS
            invariant
                k <= BUFFER_CELLS,
                cells@ == Seq::new(k as nat, |j: int| 0u16),
            decreases BUFFER_CELLS - k,
        {
            cells.push(0);
            k = k + 1;
            assert(cells@ =~= Seq::new(k as nat, |j: int| 0u16));
        }
        TermWriter { row: BUFFER_HEIGHT - 1, col: 0, colour: 0, cells }
    }

    /// The cell at index `k`.
    pub fn cell(&self, k: usize) -> (r: u16)
        requires
            term_wf(self@),
            k < BUFFER_CELLS,
        ensures
            r == self@.cells[k as int],
    {
        self.cells[k]
    }

    /// The grid, row after row.
    pub fn cells(&self) -> (r: &Vec<u16>)
        ensures
            r@ == self@.cells,
    {
        &self.cells
    }

    /// The cursor: row and column.
    pub fn cursor(&self) -> (r: (usize, usize))
        ensures
            r.0 == self@.row,
            r.1 == self@.col,
    {
        (self.row, self.col)
    }

    pub fn colour(&self) -> (r: u8)
        ensures
            r == self@.colour,
    {
        self.colour
    }

    /// Blanks row `row` with the current attribute.
    pub fn clear_row(&mut self, row: usize)
        requires
            term_wf(old(self)@),
            row < BUFFER_HEIGHT,
        ensures
            final(self)@ == (TermView {
                cells: Seq::new(
                    BUFFER_CELLS as nat,
                    |k: int|
                        if row * 80 <= k < row * 80 + 80 {
                            entry_spec(32, old(self)@.colour)
                        } else {
                            old(self)@.cells[k]
                        },
                ),
                ..old(self)@
            }),
    {
        let blank = rec_entry(BLANK, self.colour);
        let mut i: usize = 0;
        while i < BUFFER_WIDTH
            invariant
                term_wf(old(self)@),
                row < BUFFER_HEIGHT,
                i <= BUFFER_WIDTH,
                blank == entry_spec(32, old(self)@.colour),
                self.row == old(self)@.row,
                self.col == old(self)@.col,
                self.colour == old(self)@.colour,
                self.cells@.len() == BUFFER_CELLS,
                forall|k: int|
                    0 <= k < BUFFER_CELLS ==> #[trigger] self.cells@[k] == if row * 80 <= k < row
                        * 80 + i {
                        blank
                    } else {
                        old(self)@.cells[k]
                    },
            decreases BUFFER_WIDTH - i,
        {
            let k = get_offset(row, i);
            self.cells.set(k, blank);
            i = i + 1;
        }
        assert(self@.cells =~= Seq::new(
            BUFFER_CELLS as nat,
            |k: int|
                if row * 80 <= k < row * 80 + 80 {
                    entry_spec(32, old(self)@.colour)
                } else {
                    old(self)@.cells[k]
                },
        ));
    }

    /// Blanks the whole grid with the current attribute and puts the cursor
    /// at the start of the last row.
    pub fn clear(&mut self)
        requires
            term_wf(old(self)@),
        ensures
            term_wf(final(self)@),
            final(self)@ == (TermView {
                cells: Seq::new(BUFFER_CELLS as nat, |k: int| entry_spec(32, old(self)@.colour)),
                row: BUFFER_HEIGHT - 1,
                col: 0,
                ..old(self)@
            }),
    {
        let blank = rec_entry(BLANK, self.colour);
        let mut k: usize = 0;
        while k < BUFFER_CELLS
            invariant
                term_wf(old(self)@),
                k <= BUFFER_CELLS,
                blank == entry_spec(32, old(self)@.colour),
                self.colour == old(self)@.colour,
                self.cells@.len() == BUFFER_CELLS,
                forall|j: int| 0 <= j < k ==> #[trigger] self.cells@[j] == blank,
            decreases BUFFER_CELLS - k,
        {
            self.cells.set(k, blank);
            k = k + 1;
        }
        self.row = BUFFER_HEIGHT - 1;
        self.col = 0;
        assert(self@.cells =~= Seq::new(
            BUFFER_CELLS as nat,
            |j: int| entry_spec(32, old(self)@.colour),
        ));
    }

    /// Moves the rows up to the cursor's up by one, blanks the cursor's row
    /// and puts the cursor at its start.
    pub fn new_line(&mut self)
        requires
            term_wf(old(self)@),
        ensures
            term_wf(final(self)@),
            final(self)@ == new_line_spec(old(self)@),
    {
        let row = self.row;
        let moved = row * BUFFER_WIDTH;
        let mut k: usize = 0;
        while k < moved
            invariant
                term_wf(old(self)@),
                row == old(self)@.row,
                moved == row * 80,
                k <= moved,
                self.row == old(self)@.row,
                self.col == old(self)@.col,
                self.colour == old(self)@.colour,
                self.cells@.len() == BUFFER_CELLS,
                forall|j: int|
                    0 <= j < BUFFER_CELLS ==> #[trigger] self.cells@[j] == if j < k {
                        old(self)@.cells[j + 80]
                    } else {
                        old(self)@.cells[j]
                    },
            decreases moved - k,
        {
            let c = self.cells[k + BUFFER_WIDTH];
            self.cells.set(k, c);
            k = k + 1;
        }
        self.clear_row(row);
        self.col = 0;
        assert(self@.cells =~= scrolled(old(self)@.cells, old(self)@.row, old(self)@.colour));
    }

    /// Sets the attribute of the characters written from now on.
    pub fn set_colour(&mut self, foreground: Colours, background: Colours)
        ensures
            final(self)@ == (TermView {
                colour: (colour_code(background) * 16 + colour_code(foreground)) as u8,
                ..old(self)@
            }),
    {
        self.colour = rec_colour(foreground, background);
    }

    /// Writes one character at the cursor.
    pub fn write_char(&mut self, ch: u8)
        requires
            term_wf(old(self)@),
        ensures
            term_wf(final(self)@),
            final(self)@ == put_char_spec(old(self)@, ch),
    {
        proof {
            lemma_put_char_wf(self@, ch);
        }
        if ch == NEWLINE {
            self.new_line();
            return;
        }
        if self.col >= BUFFER_WIDTH {
            self.new_line();
        }
        let k = get_offset(self.row, self.col);
        let e = rec_entry(ch, self.colour);
        self.cells.set(k, e);
        self.col = self.col + 1;
    }

    /// Writes the bytes of `s` one after the other.
    pub fn write_bytes(&mut self, s: &[u8])
        requires
            term_wf(old(self)@),
        ensures
            term_wf(final(self)@),
            final(self)@ == put_bytes_spec(old(self)@, s@),
    {
        let mut i: usize = 0;
        while i < s.len()
            invariant
                i <= s@.len(),
                term_wf(self@),
                self@ == put_bytes_spec(old(self)@, s@.subrange(0, i as int)),
            decreases s@.len() - i,
        {
            proof {
                assert(s@.subrange(0, i as int + 1).drop_last() =~= s@.subrange(0, i as int));
            }
            self.write_char(s[i]);
            i = i + 1;
        }
        assert(s@.subrange(0, i as int) =~= s@);
    }
}

/// Sets the terminal up: white on black, blank grid, cursor at the start
/// of the last row. The terminal's lock is free before and after.
pub fn init_writer(writer: &mut SpinMutex<TermWriter>)
    requires
        old(writer)@ matches Some(w) && term_wf(w@),
    ensures
        final(writer)@ matches Some(w) && w@ == (TermView {
            cells: Seq::new(BUFFER_CELLS as nat, |k: int| entry_spec(32, 0x0f)),
            row: BUFFER_HEIGHT - 1,
            col: 0,
            colour: 0x0f,
        }),
{
    let mut guard = writer.lock();
    let w = guard.get_mut();
    w.set_colour(Colours::White, Colours::Black);
    w.clear();
    writer.unlock(guard);
}

} // verus!
