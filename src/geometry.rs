//! Viewport geometry: sizes and caret positions in character cells.

use vstd::prelude::*;

verus! {

/// The size of the viewport in character cells.
#[derive(Copy, Clone, Debug, PartialEq, Eq, Structural)]
pub struct TerminalSize {
    pub width: usize,
    pub height: usize,
}

/// A zero-based (column, row) cell of the viewport.
#[derive(Copy, Clone, Debug, PartialEq, Eq, Structural)]
pub struct Position {
    pub col: usize,
    pub row: usize,
}

/// The largest coordinate a terminal cell address can hold.
pub const CELL_MAX: u16 = 0xffff;

/// A coordinate as a terminal cell address: values past `CELL_MAX` saturate.
pub open spec fn cell_coordinate(v: usize) -> u16 {
    if v > CELL_MAX as usize {
        CELL_MAX
    } else {
        v as u16
    }
}

/// The top-left cell.
pub open spec fn origin() -> Position {
    Position { col: 0, row: 0 }
}

impl Default for TerminalSize {
    fn default() -> (r: Self)
        ensures
            r == (TerminalSize { width: 0, height: 0 }),
    {
        TerminalSize { width: 0, height: 0 }
    }
}

impl Default for Position {
    fn default() -> (r: Self)
        ensures
            r == origin(),
    {
        Position { col: 0, row: 0 }
    }
}

impl Position {
    /// The (column, row) cell address that a terminal can be told to move to;
    /// coordinates too large for it are truncated to `CELL_MAX`, never wrapped.
    pub fn to_cell(&self) -> (r: (u16, u16))
        ensures
            r == (cell_coordinate(self.col), cell_coordinate(self.row)),
    {
        let col: u16 = if self.col > CELL_MAX as usize { CELL_MAX } else { self.col as u16 };
        let row: u16 = if self.row > CELL_MAX as usize { CELL_MAX } else { self.row as u16 };
        (col, row)
    }
}

} // verus!
