//! What holds of every console: the laws that the model obeys, each proved
//! from the definitions in [`crate::screen`].

use vstd::prelude::*;

use crate::buffer::{grid_wf, grid_write, ScreenChar, BUFFER_HEIGHT, BUFFER_WIDTH};
use crate::screen::{
    is_printable, next_tab_stop, sanitize, Screen, BLANK, FALLBACK_GLYPH, NEWLINE, TAB, TAB_WIDTH,
};

verus! {

/// A cell read right after it was written is the cell that was written, the
/// grid keeps its shape, and no other cell changes.
pub proof fn lemma_read_after_write(cells: Seq<Seq<ScreenChar>>, row: int, col: int, cell: ScreenChar)
    requires
        grid_wf(cells),
        0 <= row < BUFFER_HEIGHT,
        0 <= col < BUFFER_WIDTH,
    ensures
        grid_write(cells, row, col, cell)[row][col] == cell,
        grid_wf(grid_write(cells, row, col, cell)),
        forall|r: int, c: int|
            0 <= r < BUFFER_HEIGHT && 0 <= c < BUFFER_WIDTH && (r != row || c != col)
                ==> #[trigger] grid_write(cells, row, col, cell)[r][c] == cells[r][c],
{
    let after = grid_write(cells, row, col, cell);
    assert forall|r: int| 0 <= r < BUFFER_HEIGHT implies (#[trigger] after[r]).len()
        == BUFFER_WIDTH by {
        assert(cells[r].len() == BUFFER_WIDTH);
    }
}

/// The stored character code is the byte itself for a printable byte and
/// the fallback glyph for every other byte that stores a cell; it is always
/// one that the display can show.
pub proof fn lemma_sanitize(byte: u8)
    ensures
        is_printable(byte) ==> sanitize(byte) == byte,
        !is_printable(byte) && byte != TAB && byte != NEWLINE ==> sanitize(byte) == FALLBACK_GLYPH,
        byte != TAB && byte != NEWLINE ==> is_printable(sanitize(byte)) || sanitize(byte)
            == FALLBACK_GLYPH,
{
}

/// Every byte is taken. From a well-formed console each of the 256 byte
/// values leads to a well-formed console in the same colour: a newline feeds
/// a line, a tab moves the cursor and touches no cell, and any other byte
/// changes exactly one cell, to the byte itself or to the fallback glyph, and
/// moves the cursor one cell past it.
pub proof fn lemma_write_byte_total(s: Screen, byte: u8)
    requires
        s.wf(),
    ensures
        s.write_byte(byte).wf(),
        s.write_byte(byte).color == s.color,
        byte == NEWLINE ==> s.write_byte(byte) == s.line_feed(),
        byte == TAB ==> s.write_byte(byte) == s.tab(),
        byte != NEWLINE && byte != TAB ==> ({
            let at = if s.column >= BUFFER_WIDTH {
                s.line_feed()
            } else {
                s
            };
            let code = if is_printable(byte) {
                byte
            } else {
                FALLBACK_GLYPH
            };
            &&& at.wf()
            &&& at.column < BUFFER_WIDTH
            &&& s.write_byte(byte).row == at.row
            &&& s.write_byte(byte).column == at.column + 1
            &&& s.write_byte(byte).cells[at.row as int][at.column as int] == (ScreenChar {
                ascii_character: code,
                color_code: s.color,
            })
            &&& forall|r: int, c: int|
                0 <= r < BUFFER_HEIGHT && 0 <= c < BUFFER_WIDTH && (r != at.row || c != at.column)
                    ==> #[trigger] s.write_byte(byte).cells[r][c] == at.cells[r][c]
        }),
{
    lemma_line_feed_wf(s);
    if byte != NEWLINE && byte != TAB {
        let at = if s.column >= BUFFER_WIDTH {
            s.line_feed()
        } else {
            s
        };
        lemma_read_after_write(at.cells, at.row as int, at.column as int, at.glyph(byte));
    }
}

/// A line feed keeps a well-formed console well-formed, and its colour.
pub proof fn lemma_line_feed_wf(s: Screen)
    requires
        s.wf(),
    ensures
        s.line_feed().wf(),
        s.line_feed().column == 0,
        s.line_feed().color == s.color,
{
}

/// A run of bytes keeps a well-formed console well-formed, and its colour.
pub proof fn lemma_write_bytes_wf(s: Screen, bytes: Seq<u8>)
    requires
        s.wf(),
    ensures
        s.write_bytes(bytes).wf(),
        s.write_bytes(bytes).color == s.color,
    decreases bytes.len(),
{
    if bytes.len() > 0 {
        lemma_write_bytes_wf(s, bytes.drop_last());
        lemma_write_byte_total(s.write_bytes(bytes.drop_last()), bytes.last());
    }
}

/// The tab stop after a column is the least multiple of the tab width that
/// is greater than the column: from 0 and from 3 it is 4, from 4 it is 8.
pub proof fn lemma_tab_stop(column: nat)
    ensures
        next_tab_stop(column) % (TAB_WIDTH as nat) == 0,
        column < next_tab_stop(column) <= column + TAB_WIDTH,
        forall|stop: nat|
            stop > column && #[trigger] (stop % (TAB_WIDTH as nat)) == 0 ==> next_tab_stop(column)
                <= stop,
{
    assert forall|stop: nat|
        stop > column && #[trigger] (stop % (TAB_WIDTH as nat)) == 0 implies next_tab_stop(column)
        <= stop by {
        if stop < next_tab_stop(column) {
            assert(column / 4 == stop / 4 && stop % 4 > column % 4) by (nonlinear_arith)
                requires
                    column < stop < column + 4 - column % 4,
            ;
        }
    }
}

/// A tab writes no cell: the cells, the row and the colour stay, and the
/// column goes to the next tab stop.
pub proof fn lemma_tab_moves_cursor_only(s: Screen)
    ensures
        s.write_byte(TAB).cells == s.cells,
        s.write_byte(TAB).row == s.row,
        s.write_byte(TAB).color == s.color,
        s.write_byte(TAB).column == next_tab_stop(s.column),
{
}

/// A newline on the last row scrolls: each row takes the content of the row
/// below it, the last row is empty, and the cursor stands at its start.
pub proof fn lemma_scroll(s: Screen)
    requires
        s.wf(),
        s.row == BUFFER_HEIGHT - 1,
    ensures
        s.write_byte(NEWLINE).wf(),
        s.write_byte(NEWLINE).row == BUFFER_HEIGHT - 1,
        s.write_byte(NEWLINE).column == 0,
        forall|r: int|
            0 <= r < BUFFER_HEIGHT - 1 ==> #[trigger] s.write_byte(NEWLINE).cells[r] == s.cells[r
                + 1],
        forall|c: int|
            0 <= c < BUFFER_WIDTH ==> #[trigger] s.write_byte(NEWLINE).cells[BUFFER_HEIGHT - 1][c]
                == (ScreenChar { ascii_character: BLANK, color_code: s.color }),
{
}

/// What the top row held is gone after a scroll: two consoles that differ
/// in their top rows only are the same console after a newline on the last
/// row.
pub proof fn lemma_scroll_drops_top_row(s: Screen, t: Screen)
    requires
        s.wf(),
        t.wf(),
        s.row == BUFFER_HEIGHT - 1,
        t.row == s.row,
        t.column == s.column,
        t.color == s.color,
        forall|r: int| 1 <= r < BUFFER_HEIGHT ==> #[trigger] s.cells[r] == t.cells[r],
    ensures
        s.write_byte(NEWLINE) == t.write_byte(NEWLINE),
{
    assert(s.write_byte(NEWLINE).cells =~= t.write_byte(NEWLINE).cells);
}

/// Printable bytes that fit in the rest of the row go into it left to right,
/// each cell holding its byte in the current colour. The cursor stays on the
/// row and ends behind the last byte; nothing scrolls or wraps, and no other
/// cell changes.
pub proof fn lemma_write_printable(s: Screen, bytes: Seq<u8>)
    requires
        s.wf(),
        s.column + bytes.len() <= BUFFER_WIDTH,
        forall|i: int| 0 <= i < bytes.len() ==> is_printable(#[trigger] bytes[i]),
    ensures
        s.write_bytes(bytes).wf(),
        s.write_bytes(bytes).row == s.row,
        s.write_bytes(bytes).column == s.column + bytes.len(),
        s.write_bytes(bytes).color == s.color,
        forall|i: int|
            0 <= i < bytes.len() ==> #[trigger] s.write_bytes(bytes).cells[s.row as int][s.column
                + i] == (ScreenChar { ascii_character: bytes[i], color_code: s.color }),
        forall|c: int|
            0 <= c < s.column || s.column + bytes.len() <= c < BUFFER_WIDTH
                ==> #[trigger] s.write_bytes(bytes).cells[s.row as int][c] == s.cells[s.row as int][c],
        forall|r: int|
            0 <= r < BUFFER_HEIGHT && r != s.row ==> #[trigger] s.write_bytes(bytes).cells[r]
                == s.cells[r],
    decreases bytes.len(),
{
    if bytes.len() > 0 {
        let front = bytes.drop_last();
        let before = s.write_bytes(front);
        let after = s.write_bytes(bytes);
        lemma_write_printable(s, front);
        lemma_write_byte_total(before, bytes.last());
        assert(after == before.write_byte(bytes.last()));
        assert forall|i: int| 0 <= i < bytes.len() implies #[trigger] after.cells[s.row as int][s.column
            + i] == (ScreenChar { ascii_character: bytes[i], color_code: s.color }) by {
            if i < front.len() {
                assert(front[i] == bytes[i]);
                assert(after.cells[s.row as int][s.column + i] == before.cells[s.row as int][s.column
                    + i]);
            }
        }
        assert forall|c: int|
            0 <= c < s.column || s.column + bytes.len() <= c < BUFFER_WIDTH implies #[trigger] after.cells[s.row as int][c]
            == s.cells[s.row as int][c] by {
            assert(after.cells[s.row as int][c] == before.cells[s.row as int][c]);
        }
        assert forall|r: int| 0 <= r < BUFFER_HEIGHT && r != s.row implies #[trigger] after.cells[r]
            == s.cells[r] by {
            assert(after.cells[r] == before.cells[r]);
        }
    }
}

/// A full row of printable bytes fills the row and leaves the column at the
/// width of the grid, with the row intact. The move to the next row is made
/// by the next byte that stores a cell: it lands in the first cell of the
/// row below, or, from the last row, in the first cell of the last row after
/// a scroll. Either way the filled row keeps its content.
pub proof fn lemma_wrap(s: Screen, bytes: Seq<u8>, next: u8)
    requires
        s.wf(),
        s.column == 0,
        bytes.len() == BUFFER_WIDTH,
        forall|i: int| 0 <= i < bytes.len() ==> is_printable(#[trigger] bytes[i]),
        next != NEWLINE,
        next != TAB,
    ensures
        s.write_bytes(bytes).row == s.row,
        s.write_bytes(bytes).column == BUFFER_WIDTH,
        forall|c: int|
            0 <= c < BUFFER_WIDTH ==> #[trigger] s.write_bytes(bytes).cells[s.row as int][c] == (
            ScreenChar { ascii_character: bytes[c], color_code: s.color }),
        forall|r: int|
            0 <= r < BUFFER_HEIGHT && r != s.row ==> #[trigger] s.write_bytes(bytes).cells[r]
                == s.cells[r],
        s.write_bytes(bytes).write_byte(next).column == 1,
        s.row + 1 < BUFFER_HEIGHT ==> {
            &&& s.write_bytes(bytes).write_byte(next).row == s.row + 1
            &&& s.write_bytes(bytes).write_byte(next).cells[s.row as int] == s.write_bytes(
                bytes,
            ).cells[s.row as int]
            &&& s.write_bytes(bytes).write_byte(next).cells[s.row as int + 1][0] == s.glyph(next)
        },
        s.row + 1 == BUFFER_HEIGHT ==> {
            &&& s.write_bytes(bytes).write_byte(next).row == s.row
            &&& s.write_bytes(bytes).write_byte(next).cells[s.row - 1] == s.write_bytes(
                bytes,
            ).cells[s.row as int]
            &&& s.write_bytes(bytes).write_byte(next).cells[s.row as int][0] == s.glyph(next)
        },
{
    let full = s.write_bytes(bytes);
    lemma_write_printable(s, bytes);
    assert forall|c: int| 0 <= c < BUFFER_WIDTH implies #[trigger] full.cells[s.row as int][c] == (
    ScreenChar { ascii_character: bytes[c], color_code: s.color }) by {
        assert(full.cells[s.row as int][s.column + c] == (ScreenChar {
            ascii_character: bytes[c],
            color_code: s.color,
        }));
    }
    lemma_write_byte_total(full, next);
    let after = full.write_byte(next);
    let at = full.line_feed();
    if s.row + 1 < BUFFER_HEIGHT {
        assert(after.cells[s.row as int] =~= at.cells[s.row as int]);
    } else {
        assert(after.cells[s.row - 1] =~= at.cells[s.row - 1]);
    }
}

/// Writing one run of bytes and then another is writing the two runs joined:
/// what a writer shows depends on the order of the bytes alone, not on how
/// they were split into calls.
pub proof fn lemma_write_bytes_concat(s: Screen, first: Seq<u8>, second: Seq<u8>)
    ensures
        s.write_bytes(first + second) == s.write_bytes(first).write_bytes(second),
    decreases second.len(),
{
    if second.len() == 0 {
        assert(first + second =~= first);
    } else {
        lemma_write_bytes_concat(s, first, second.drop_last());
        assert((first + second).drop_last() =~= first + second.drop_last());
        assert((first + second).last() == second.last());
    }
}

/// The column grows by at most one tab width with each byte.
pub proof fn lemma_column_bound(s: Screen, bytes: Seq<u8>)
    requires
        s.wf(),
    ensures
        s.write_bytes(bytes).column <= s.column + TAB_WIDTH * bytes.len(),
    decreases bytes.len(),
{
    if bytes.len() > 0 {
        lemma_column_bound(s, bytes.drop_last());
        lemma_write_bytes_wf(s, bytes.drop_last());
        lemma_write_byte_total(s.write_bytes(bytes.drop_last()), bytes.last());
        lemma_tab_stop(s.write_bytes(bytes.drop_last()).column);
    }
}

/// A writer can take any run of bytes that is short enough for the machine:
/// one for which the column plus a tab width for each byte fits in a word.
pub proof fn lemma_fits(s: Screen, bytes: Seq<u8>)
    requires
        s.wf(),
        s.column + TAB_WIDTH * bytes.len() <= usize::MAX,
    ensures
        s.fits(bytes),
{
    assert forall|i: int| 0 <= i < bytes.len() && bytes[i] == TAB implies (#[trigger] s.write_bytes(
        bytes.take(i),
    )).tab().column <= usize::MAX by {
        lemma_column_bound(s, bytes.take(i));
        lemma_tab_stop(s.write_bytes(bytes.take(i)).column);
    }
}

} // verus!
