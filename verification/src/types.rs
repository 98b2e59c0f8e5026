//! The displays that the controller can drive: how many rows and columns, on how many
//! controller lines, in which font.

use vstd::prelude::*;
use crate::instructions::{FnsetFont, FnsetLines};

verus! {

/// The size and mode of a display.
pub struct DisplayGeometry {
    pub rows: u8,
    pub cols: u8,
    pub lines: FnsetLines,
    pub font: FnsetFont,
}

impl DisplayGeometry {
    /// Whether the display has a cell at this row and column.
    pub open spec fn holds(self, row: u8, col: u8) -> bool {
        row < self.rows && col < self.cols
    }

    /// The display RAM address of a cell. On one controller line the rows follow each
    /// other. On two, even rows lie on the first line and odd rows on the second, which
    /// starts at 0x40, and each further pair of rows lies one row's width on.
    pub open spec fn ddram_address(self, row: u8, col: u8) -> int {
        match self.lines {
            FnsetLines::One => self.cols * row + col,
            FnsetLines::Two => 0x40 * (row % 2) + self.cols * (row / 2) + col,
        }
    }

    /// Whether the address of this cell fits the byte that carries it.
    pub open spec fn addressable(self, row: u8, col: u8) -> bool {
        self.ddram_address(row, col) <= u8::MAX
    }
}

/// A kind of display. The four answers of a display never change.
pub trait DisplayTypeTrait {
    spec fn geometry(&self) -> DisplayGeometry;

    fn rows(&self) -> (rows: u8)
        ensures
            rows == self.geometry().rows,
    ;

    fn cols(&self) -> (cols: u8)
        ensures
            cols == self.geometry().cols,
    ;

    fn lines(&self) -> (lines: FnsetLines)
        ensures
            lines == self.geometry().lines,
    ;

    fn font(&self) -> (font: FnsetFont)
        ensures
            font == self.geometry().font,
    ;
}

/// A display with cells of 5x8 dots, on one or two controller lines.
pub struct DisplayTypeFont5x8 {
    rows: u8,
    cols: u8,
    lines: FnsetLines,
}

impl DisplayTypeFont5x8 {
    pub fn new(rows: u8, cols: u8, lines: FnsetLines) -> (display: Self)
        ensures
            display.geometry() == (DisplayGeometry {
                rows,
                cols,
                lines,
                font: FnsetFont::Dots5x8,
            }),
    {
        DisplayTypeFont5x8 { rows, cols, lines }
    }
}

impl DisplayTypeTrait for DisplayTypeFont5x8 {
    closed spec fn geometry(&self) -> DisplayGeometry {
        DisplayGeometry {
            rows: self.rows,
            cols: self.cols,
            lines: self.lines,
            font: FnsetFont::Dots5x8,
        }
    }

    fn rows(&self) -> (rows: u8) {
        self.rows
    }

    fn cols(&self) -> (cols: u8) {
        self.cols
    }

    fn lines(&self) -> (lines: FnsetLines) {
        self.lines
    }

    fn font(&self) -> (font: FnsetFont) {
        FnsetFont::Dots5x8
    }
}

/// A display with cells of 5x10 dots. The controller drives those on one line only.
pub struct DisplayTypeFont5x10 {
    rows: u8,
    cols: u8,
}

impl DisplayTypeFont5x10 {
    pub fn new(rows: u8, cols: u8) -> (display: Self)
        ensures
            display.geometry() == (DisplayGeometry {
                rows,
                cols,
                lines: FnsetLines::One,
                font: FnsetFont::Dots5x10,
            }),
    {
        DisplayTypeFont5x10 { rows, cols }
    }
}

impl DisplayTypeTrait for DisplayTypeFont5x10 {
    closed spec fn geometry(&self) -> DisplayGeometry {
        DisplayGeometry {
            rows: self.rows,
            cols: self.cols,
            lines: FnsetLines::One,
            font: FnsetFont::Dots5x10,
        }
    }

    fn rows(&self) -> (rows: u8) {
        self.rows
    }

    fn cols(&self) -> (cols: u8) {
        self.cols
    }

    fn lines(&self) -> (lines: FnsetLines) {
        FnsetLines::One
    }

    fn font(&self) -> (font: FnsetFont) {
        FnsetFont::Dots5x10
    }
}

} // verus!
