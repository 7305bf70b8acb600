//! Screen controller: a 40-column by 24-row character grid, a cursor, and a
//! control register with the same one-shot latch pattern as the keyboard.
//!
//! Byte policy for `write`:
//! - `0x5F` moves the cursor one cell to the left (wrapping to the last
//!   column of the previous row) and clears the cell it lands on; at the top
//!   left corner this fails with `CursorUnderflow`.
//! - `0x7F` is a no-op.
//! - printable ASCII (`0x20..=0x7E`, other than `0x5F`) is stored at the
//!   cursor and the cursor advances, wrapping to the next row at the last
//!   column; when it runs off the bottom row it wraps back to row `0` and the
//!   grid scrolls up by one row, discarding the top row.
//! - every other byte is rejected with `UnsupportedCharacter` and changes
//!   nothing.

use vstd::prelude::*;

use crate::errors::BusError;

verus! {

/// Number of character columns of the grid.
pub const COLUMNS: usize = 40;

/// Number of character rows of the grid.
pub const LINES: usize = 24;

/// Number of cells of the grid.
pub const CELLS: usize = 40 * 24;

/// The all-zero grid.
pub open spec fn blank_grid() -> Seq<u8> {
    Seq::new(CELLS as nat, |i: int| 0u8)
}

/// The grid scrolled up by one row: every row takes the contents of the row
/// below it, and the bottom row becomes blank.
pub open spec fn scrolled_grid(grid: Seq<u8>) -> Seq<u8> {
    Seq::new(CELLS as nat, |i: int| if i + COLUMNS < CELLS { grid[i + (COLUMNS as int)] } else { 0u8 })
}

/// Mathematical model of the screen state.
pub struct ScreenView {
    /// Row-major character grid of `CELLS` cells.
    pub grid: Seq<u8>,
    /// Cursor column.
    pub x: nat,
    /// Cursor row.
    pub y: nat,
    /// Control register.
    pub cr: u8,
    /// One-shot latch: set by the first control write with bit 7 while clear.
    pub output: bool,
}

impl ScreenView {
    /// The cursor stays inside the grid and the grid keeps its size.
    pub open spec fn wf(self) -> bool {
        &&& self.grid.len() == CELLS
        &&& self.x < COLUMNS as nat
        &&& self.y < LINES as nat
    }

    /// The initial state: blank grid, cursor at the top left, control
    /// register zero, output disabled.
    pub open spec fn spec_blank() -> ScreenView {
        ScreenView { grid: blank_grid(), x: 0, y: 0, cr: 0, output: false }
    }

    /// Index of the cell at column `x`, row `y`.
    pub open spec fn cell(x: nat, y: nat) -> int {
        (y * (COLUMNS as nat) + x) as int
    }

    /// Result and next state of a data write of `c`.
    pub open spec fn spec_write(self, c: u8) -> (Result<(), BusError>, ScreenView) {
        if c == 0x5F {
            if self.x == 0 && self.y == 0 {
                (Err(BusError::CursorUnderflow), self)
            } else {
                let nx = if self.x == 0 { (COLUMNS - 1) as nat } else { (self.x - 1) as nat };
                let ny = if self.x == 0 { (self.y - 1) as nat } else { self.y };
                (Ok(()), ScreenView { grid: self.grid.update(Self::cell(nx, ny), 0u8), x: nx, y: ny, ..self })
            }
        } else if c == 0x7F {
            (Ok(()), self)
        } else if 0x20 <= c && c <= 0x7E {
            let stored = self.grid.update(Self::cell(self.x, self.y), c);
            if self.x + 1 < COLUMNS as nat {
                (Ok(()), ScreenView { grid: stored, x: self.x + 1, ..self })
            } else if self.y + 1 < LINES as nat {
                (Ok(()), ScreenView { grid: stored, x: 0, y: self.y + 1, ..self })
            } else {
                (Ok(()), ScreenView { grid: scrolled_grid(stored), x: 0, y: 0, ..self })
            }
        } else {
            (Err(BusError::UnsupportedCharacter), self)
        }
    }

    /// State after a control-register write of `cr`.
    pub open spec fn spec_write_cr(self, cr: u8) -> ScreenView {
        if !self.output && cr >= 0x80 {
            (ScreenView { output: true, ..self })
        } else {
            (ScreenView { cr, ..self })
        }
    }

    /// State after `clear`: blank grid, cursor at the top left; the control
    /// register and the output latch are kept.
    pub open spec fn spec_clear(self) -> ScreenView {
        ScreenView { grid: blank_grid(), x: 0, y: 0, ..self }
    }
}

/// State of the character-terminal output port.
#[derive(Debug)]
pub struct Screen {
    /// Row-major character grid of `CELLS` cells.
    pub chars: Vec<u8>,
    /// Cursor column; always below `COLUMNS`.
    pub x: usize,
    /// Cursor row; always below `LINES`.
    pub y: usize,
    /// Control register.
    pub cr: u8,
    /// One-shot latch: set by the first control write with bit 7 while clear.
    pub output: bool,
}

impl View for Screen {
    type V = ScreenView;

    open spec fn view(&self) -> ScreenView {
        ScreenView {
            grid: self.chars@,
            x: self.x as nat,
            y: self.y as nat,
            cr: self.cr,
            output: self.output,
        }
    }
}

/// A freshly allocated all-zero grid.
fn blank_cells() -> (v: Vec<u8>)
    ensures
        v@ == blank_grid(),
{
    let mut v: Vec<u8> = Vec::new();
    while v.len() < CELLS
        invariant
            v@.len() <= CELLS,
            forall|i: int| 0 <= i < v@.len() ==> v@[i] == 0u8,
        decreases CELLS - v@.len(),
    {
        v.push(0);
    }
    proof {
        assert(v@ =~= blank_grid());
    }
    v
}

impl Screen {
    pub fn new() -> (s: Screen)
        ensures
            s@ == ScreenView::spec_blank(),
            s@.wf(),
    {
        Screen { chars: blank_cells(), x: 0, y: 0, cr: 0, output: false }
    }

    /// Scroll the grid up by one row, discarding the top row and blanking the
    /// bottom one; the cursor and the control state are untouched.
    pub fn new_line(&mut self)
        requires
            old(self)@.wf(),
        ensures
            final(self)@ == (ScreenView { grid: scrolled_grid(old(self)@.grid), ..old(self)@ }),
            final(self)@.wf(),
    {
        let ghost start = self.chars@;
        let mut i: usize = 0;
        while i < CELLS
            invariant
                self@.grid.len() == CELLS,
                start.len() == CELLS,
                i <= CELLS,
                self.x == old(self).x,
                self.y == old(self).y,
                self.cr == old(self).cr,
                self.output == old(self).output,
                forall|j: int| 0 <= j < i ==> self.chars@[j] == scrolled_grid(start)[j],
                forall|j: int| i <= j < CELLS ==> self.chars@[j] == start[j],
            decreases CELLS - i,
        {
            if i + COLUMNS < CELLS {
                let moved = self.chars[i + COLUMNS];
                self.chars[i] = moved;
            } else {
                self.chars[i] = 0;
            }
            i = i + 1;
        }
        proof {
            assert(self.chars@ =~= scrolled_grid(start));
        }
    }

    /// Handle one byte written to the screen data register, as the module
    /// documentation describes; on an error the state is unchanged.
    pub fn write(&mut self, c: u8) -> (r: Result<(), BusError>)
        requires
            old(self)@.wf(),
        ensures
            r == old(self)@.spec_write(c).0,
            final(self)@ == old(self)@.spec_write(c).1,
            final(self)@.wf(),
    {
        if c == 0x5F {
            if self.x == 0 && self.y == 0 {
                return Err(BusError::CursorUnderflow);
            }
            if self.x == 0 {
                self.y = self.y - 1;
                self.x = COLUMNS - 1;
            } else {
                self.x = self.x - 1;
            }
            let idx = self.y * COLUMNS + self.x;
            self.chars[idx] = 0;
            Ok(())
        } else if c == 0x7F {
            Ok(())
        } else if 0x20 <= c && c <= 0x7E {
            let idx = self.y * COLUMNS + self.x;
            self.chars[idx] = c;
            if self.x + 1 < COLUMNS {
                self.x = self.x + 1;
            } else if self.y + 1 < LINES {
                self.x = 0;
                self.y = self.y + 1;
            } else {
                self.x = 0;
                self.y = 0;
                self.new_line();
            }
            Ok(())
        } else {
            Err(BusError::UnsupportedCharacter)
        }
    }

    /// Control-register write: the same one-shot latch as the keyboard. The
    /// first write with bit 7 set while output is disabled enables output and
    /// is not stored; every other write stores the byte verbatim.
    pub fn write_cr(&mut self, cr: u8)
        ensures
            final(self)@ == old(self)@.spec_write_cr(cr),
    {
        if !self.output && cr >= 0x80 {
            self.output = true;
        } else {
            self.cr = cr;
        }
    }

    /// Reset the grid to all zero and the cursor to the top left.
    pub fn clear(&mut self)
        ensures
            final(self)@ == old(self)@.spec_clear(),
            final(self)@.wf(),
    {
        self.chars = blank_cells();
        self.x = 0;
        self.y = 0;
    }
}

impl Default for Screen {
    /// Same state as `Screen::new`.
    fn default() -> (s: Screen)
        ensures
            s@ == ScreenView::spec_blank(),
    {
        Screen::new()
    }
}

} // verus!
