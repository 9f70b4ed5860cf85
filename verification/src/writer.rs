//! Writers: anything that holds a cursor and a grid of cells gets the
//! console's behaviour from [`KernelWriter`].

use vstd::prelude::*;
use vstd::string::StringSliceAdditionalSpecFns;

use crate::buffer::{grid_wf, grid_write, Buffer, ScreenChar, BUFFER_HEIGHT, BUFFER_WIDTH};
use crate::color::ColorCode;
use crate::laws::lemma_fits;
use crate::screen::{Screen, BLANK, FALLBACK_GLYPH, NEWLINE, TAB, TAB_WIDTH};

verus! {

/// The cursor of a writer and the colour that it writes in.
pub struct KernelWriterInfos {
    pub column_position: usize,
    pub row_position: usize,
    pub color_code: ColorCode,
}

impl Screen {
    /// The console with the cursor and colour of `infos`, over the same
    /// cells.
    pub open spec fn with_infos(self, infos: KernelWriterInfos) -> Screen {
        Screen {
            column: infos.column_position as nat,
            row: infos.row_position as nat,
            color: infos.color_code,
            cells: self.cells,
        }
    }
}

/// A console writer.
///
/// An implementation supplies its cursor and the two accesses to its grid,
/// and says through `view` which console it stands for. The trait supplies
/// the behaviour: each provided method leaves the writer standing for the
/// console that the model gives. What is proved of the provided methods
/// holds of an implementation whose `infos`, `read` and `write` meet their
/// contracts here, as those of [`Writer`] are proved to.
pub trait KernelWriter {
    /// The console that this writer stands for.
    spec fn view(&self) -> Screen;

    /// The cursor and colour, open to change. Whatever is stored through the
    /// returned reference becomes the writer's cursor and colour; the cells
    /// stay as they are.
    fn infos(&mut self) -> (infos: &mut KernelWriterInfos)
        ensures
            old(self)@ == old(self)@.with_infos(*infos),
            final(self)@ == old(self)@.with_infos(*final(infos)),
    ;

    /// The cell at (`row`, `col`).
    fn read(&self, row: usize, col: usize) -> (cell: ScreenChar)
        requires
            grid_wf(self@.cells),
            row < BUFFER_HEIGHT,
            col < BUFFER_WIDTH,
        ensures
            cell == self@.cells[row as int][col as int],
    ;

    /// Stores `byte` at (`row`, `col`). Every other cell and the cursor stay
    /// as they are.
    fn write(&mut self, row: usize, col: usize, byte: ScreenChar)
        requires
            grid_wf(old(self)@.cells),
            row < BUFFER_HEIGHT,
            col < BUFFER_WIDTH,
        ensures
            final(self)@ == (Screen {
                cells: grid_write(old(self)@.cells, row as int, col as int, byte),
                ..old(self)@
            }),
    ;

    /// Takes one byte: a newline feeds a line, a tab moves to the next tab
    /// stop, and any other byte stores its glyph at the cursor.
    fn write_byte(&mut self, byte: u8)
        requires
            old(self)@.wf(),
            byte == TAB ==> old(self)@.tab().column <= usize::MAX,
        ensures
            final(self)@ == old(self)@.write_byte(byte),
            final(self)@.wf(),
    {
        if byte == NEWLINE {
            self.new_line();
        } else if byte == TAB {
            let infos = self.infos();
            infos.column_position += TAB_WIDTH - (infos.column_position % TAB_WIDTH);
        } else {
            if self.infos().column_position >= BUFFER_WIDTH {
                self.new_line();
            }
            let infos = self.infos();
            let row = infos.row_position;
            let col = infos.column_position;
            let color_code = infos.color_code;
            let byte_to_write = if matches!(byte, 0x20..=0x7e | 0x09 | 0x0a) {
                byte
            } else {
                FALLBACK_GLYPH
            };
            self.write(row, col, ScreenChar { ascii_character: byte_to_write, color_code });
            self.infos().column_position += 1;
        }
    }

    /// Takes the bytes of `s` in order.
    fn write_string(&mut self, s: &str)
        requires
            old(self)@.wf(),
            old(self)@.fits(s.spec_bytes()),
        ensures
            final(self)@ == old(self)@.write_bytes(s.spec_bytes()),
            final(self)@.wf(),
    {
        let ghost start = self@;
        let bytes = s.as_bytes();
        for i in 0..bytes.len()
            invariant
                bytes@ == s.spec_bytes(),
                start.fits(bytes@),
                self@ == start.write_bytes(bytes@.take(i as int)),
                self@.wf(),
        {
            let byte = bytes[i];
            proof {
                assert(bytes@.take(i + 1).drop_last() == bytes@.take(i as int));
                assert(bytes@.take(i + 1).last() == byte);
            }
            self.write_byte(byte);
        }
        proof {
            assert(bytes@.take(bytes@.len() as int) == bytes@);
        }
    }

    /// Moves to the start of the next row. On the last row every row moves
    /// up by one instead, and the last row is emptied.
    fn new_line(&mut self)
        requires
            old(self)@.wf(),
        ensures
            final(self)@ == old(self)@.line_feed(),
            final(self)@.wf(),
    {
        let ghost start = self@;
        let infos = self.infos();
        infos.column_position = 0;
        if infos.row_position < BUFFER_HEIGHT - 1 {
            infos.row_position += 1;
        } else {
            for row in 1..BUFFER_HEIGHT
                invariant
                    start.wf(),
                    start.row == BUFFER_HEIGHT - 1,
                    self@.column == 0,
                    self@.row == start.row,
                    self@.color == start.color,
                    grid_wf(self@.cells),
                    forall|r: int|
                        0 <= r < row - 1 ==> #[trigger] self@.cells[r] == start.cells[r + 1],
                    forall|r: int|
                        row - 1 <= r < BUFFER_HEIGHT ==> #[trigger] self@.cells[r]
                            == start.cells[r],
            {
                for col in 0..BUFFER_WIDTH
                    invariant
                        1 <= row < BUFFER_HEIGHT,
                        start.wf(),
                        start.row == BUFFER_HEIGHT - 1,
                        self@.column == 0,
                        self@.row == start.row,
                        self@.color == start.color,
                        grid_wf(self@.cells),
                        forall|r: int|
                            0 <= r < row - 1 ==> #[trigger] self@.cells[r] == start.cells[r + 1],
                        forall|r: int|
                            row <= r < BUFFER_HEIGHT ==> #[trigger] self@.cells[r]
                                == start.cells[r],
                        forall|c: int|
                            0 <= c < col ==> #[trigger] self@.cells[row - 1][c]
                                == start.cells[row as int][c],
                        forall|c: int|
                            col <= c < BUFFER_WIDTH ==> #[trigger] self@.cells[row - 1][c]
                                == start.cells[row - 1][c],
                {
                    let ch = self.read(row, col);
                    self.write(row - 1, col, ch);
                }
                proof {
                    assert(self@.cells[row - 1] =~= start.cells[row as int]);
                }
            }
            self.clear_row(BUFFER_HEIGHT - 1);
            proof {
                assert(self@.cells =~= start.line_feed().cells);
            }
        }
    }

    /// Empties row `row`: every cell of it becomes a space in the current
    /// colour.
    fn clear_row(&mut self, row: usize)
        requires
            grid_wf(old(self)@.cells),
            row < BUFFER_HEIGHT,
        ensures
            final(self)@ == old(self)@.clear_row(row as int),
    {
        let ghost start = self@;
        let infos = self.infos();
        let blank = ScreenChar { ascii_character: BLANK, color_code: infos.color_code };
        for col in 0..BUFFER_WIDTH
            invariant
                row < BUFFER_HEIGHT,
                grid_wf(start.cells),
                blank == start.blank(),
                self@.column == start.column,
                self@.row == start.row,
                self@.color == start.color,
                grid_wf(self@.cells),
                forall|r: int|
                    0 <= r < BUFFER_HEIGHT && r != row ==> #[trigger] self@.cells[r]
                        == start.cells[r],
                forall|c: int| 0 <= c < col ==> #[trigger] self@.cells[row as int][c] == blank,
        {
            self.write(row, col, blank);
        }
        proof {
            assert(self@.cells[row as int] =~= start.blank_row());
            assert(self@.cells =~= start.clear_row(row as int).cells);
        }
    }
}

/// `core::fmt::Error`, the error of a formatter: carried through, never
/// looked into.
#[verifier::external_type_specification]
#[verifier::external_body]
pub struct ExFmtError(core::fmt::Error);

/// The writer over a grid in memory, such as the display's own.
pub struct Writer {
    pub infos: KernelWriterInfos,
    pub buffer: &'static mut Buffer,
}

impl KernelWriter for Writer {
    open spec fn view(&self) -> Screen {
        Screen {
            column: self.infos.column_position as nat,
            row: self.infos.row_position as nat,
            color: self.infos.color_code,
            cells: (*self.buffer)@,
        }
    }

    fn infos(&mut self) -> (infos: &mut KernelWriterInfos) {
        &mut self.infos
    }

    fn read(&self, row: usize, col: usize) -> (cell: ScreenChar) {
        self.buffer.read(row, col)
    }

    fn write(&mut self, row: usize, col: usize, byte: ScreenChar) {
        self.buffer.write(row, col, byte)
    }
}

impl Writer {
    /// Whether this writer can take `s`: its cursor is on a row of the grid,
    /// and its column plus a tab width for each byte of `s` fits in a word.
    /// A writer that passes this test meets what `write_str` and
    /// `write_string` require.
    pub fn can_write(&self, s: &str) -> (ok: bool)
        ensures
            ok == (self@.row < BUFFER_HEIGHT && self@.column + TAB_WIDTH * s.spec_bytes().len()
                <= usize::MAX),
            ok ==> self@.wf() && self@.fits(s.spec_bytes()),
    {
        let len = s.as_bytes().len();
        let ok = self.infos.row_position < BUFFER_HEIGHT && len <= (usize::MAX
            - self.infos.column_position) / TAB_WIDTH;
        proof {
            if ok {
                self.buffer.lemma_view_wf();
                lemma_fits(self@, s.spec_bytes());
            }
        }
        ok
    }

    /// Takes the bytes of `s` in order, as a formatter hands them over. It
    /// never reports an error.
    pub fn write_str(&mut self, s: &str) -> (result: Result<(), core::fmt::Error>)
        requires
            old(self)@.wf(),
            old(self)@.fits(s.spec_bytes()),
        ensures
            result is Ok,
            final(self)@ == old(self)@.write_bytes(s.spec_bytes()),
            final(self)@.wf(),
    {
        self.write_string(s);
        Ok(())
    }
}

} // verus!
