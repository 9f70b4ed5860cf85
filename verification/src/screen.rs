//! The mathematical model of a console: its cursor, its current colour and
//! its cells, and what each written byte does to them.

use vstd::prelude::*;

use crate::buffer::{grid_wf, grid_write, ScreenChar, BUFFER_HEIGHT, BUFFER_WIDTH};
use crate::color::ColorCode;

verus! {

/// The byte that ends a line.
pub const NEWLINE: u8 = 0x0a;

/// The byte that moves the cursor to the next tab stop.
pub const TAB: u8 = 0x09;

/// The character code of an empty cell.
pub const BLANK: u8 = 0x20;

/// The glyph shown in place of a byte that has none of its own.
pub const FALLBACK_GLYPH: u8 = 0xfe;

/// Distance between two tab stops.
pub const TAB_WIDTH: usize = 4;

/// Printable bytes are those from the space to the tilde.
pub open spec fn is_printable(byte: u8) -> bool {
    0x20 <= byte <= 0x7e
}

/// The character code stored for `byte`: the byte itself where it is
/// printable, a tab or a newline, the fallback glyph otherwise.
pub open spec fn sanitize(byte: u8) -> u8 {
    if is_printable(byte) || byte == TAB || byte == NEWLINE {
        byte
    } else {
        FALLBACK_GLYPH
    }
}

/// The tab stop that follows `column`: the column moved on by what it lacks
/// to the next multiple of the tab width, and by a whole tab width where it
/// stands on a stop.
pub open spec fn next_tab_stop(column: nat) -> nat {
    (column + TAB_WIDTH - column % (TAB_WIDTH as nat)) as nat
}

/// The state of a console.
///
/// `column` may stand at `BUFFER_WIDTH`, when a row has just been filled, and
/// beyond it after tabs: the move to the next row is made by the next byte
/// that stores a cell.
pub struct Screen {
    pub column: nat,
    pub row: nat,
    pub color: ColorCode,
    pub cells: Seq<Seq<ScreenChar>>,
}

impl Screen {
    /// The cursor is on a row of the grid, and the grid has its shape.
    pub open spec fn wf(self) -> bool {
        &&& self.row < BUFFER_HEIGHT
        &&& grid_wf(self.cells)
    }

    /// An empty cell in the current colour.
    pub open spec fn blank(self) -> ScreenChar {
        ScreenChar { ascii_character: BLANK, color_code: self.color }
    }

    /// A row of empty cells in the current colour.
    pub open spec fn blank_row(self) -> Seq<ScreenChar> {
        Seq::new(BUFFER_WIDTH as nat, |col: int| self.blank())
    }

    /// The cell stored for `byte` in the current colour.
    pub open spec fn glyph(self, byte: u8) -> ScreenChar {
        ScreenChar { ascii_character: sanitize(byte), color_code: self.color }
    }

    /// Row `row` emptied; the cursor stays.
    pub open spec fn clear_row(self, row: int) -> Screen {
        Screen { cells: self.cells.update(row, self.blank_row()), ..self }
    }

    /// Every row moved up by one, the top row dropped and the bottom row
    /// emptied; the cursor stays.
    pub open spec fn scroll(self) -> Screen {
        Screen {
            cells: Seq::new(
                BUFFER_HEIGHT as nat,
                |row: int|
                    if row + 1 < BUFFER_HEIGHT {
                        self.cells[row + 1]
                    } else {
                        self.blank_row()
                    },
            ),
            ..self
        }
    }

    /// The cursor at the start of the next row; on the last row the grid
    /// scrolls instead.
    pub open spec fn line_feed(self) -> Screen {
        if self.row + 1 < BUFFER_HEIGHT {
            Screen { column: 0, row: self.row + 1, ..self }
        } else {
            Screen { column: 0, ..self.scroll() }
        }
    }

    /// The cursor at the next tab stop; no cell changes and the row stays,
    /// also where the stop lies beyond the end of the row.
    pub open spec fn tab(self) -> Screen {
        Screen { column: next_tab_stop(self.column), ..self }
    }

    /// The glyph of `byte` stored at the cursor, and the cursor one cell to
    /// the right. A cursor at or beyond the end of its row first goes to the
    /// next line.
    pub open spec fn put(self, byte: u8) -> Screen {
        let at = if self.column >= BUFFER_WIDTH {
            self.line_feed()
        } else {
            self
        };
        Screen {
            column: at.column + 1,
            cells: grid_write(at.cells, at.row as int, at.column as int, at.glyph(byte)),
            ..at
        }
    }

    /// The console after one byte.
    pub open spec fn write_byte(self, byte: u8) -> Screen {
        if byte == NEWLINE {
            self.line_feed()
        } else if byte == TAB {
            self.tab()
        } else {
            self.put(byte)
        }
    }

    /// The console after the bytes of `bytes`, first to last.
    pub open spec fn write_bytes(self, bytes: Seq<u8>) -> Screen
        decreases bytes.len(),
    {
        if bytes.len() == 0 {
            self
        } else {
            self.write_bytes(bytes.drop_last()).write_byte(bytes.last())
        }
    }

    /// Whether the column fits in a machine word at every tab of `bytes`:
    /// the one limit on what an executable writer can take.
    pub open spec fn fits(self, bytes: Seq<u8>) -> bool {
        forall|i: int|
            0 <= i < bytes.len() && bytes[i] == TAB ==> (#[trigger] self.write_bytes(
                bytes.take(i),
            )).tab().column <= usize::MAX
    }
}

} // verus!
