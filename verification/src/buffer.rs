//! The cell grid: what a cell is, how big the grid is, and the two primitive
//! accesses to it.

use vstd::prelude::*;
use volatile::Volatile;

use crate::color::ColorCode;

verus! {

/// Number of rows of the grid.
pub const BUFFER_HEIGHT: usize = 25;

/// Number of cells in a row.
pub const BUFFER_WIDTH: usize = 80;

/// One character position: the character code, then its colour attribute.
#[derive(Debug, Clone, Copy, PartialEq, Eq, Structural)]
pub struct ScreenChar {
    pub ascii_character: u8,
    pub color_code: ColorCode,
}

/// A grid has the right shape when it has `BUFFER_HEIGHT` rows of
/// `BUFFER_WIDTH` cells each.
pub open spec fn grid_wf(cells: Seq<Seq<ScreenChar>>) -> bool {
    &&& cells.len() == BUFFER_HEIGHT
    &&& forall|row: int| 0 <= row < BUFFER_HEIGHT ==> (#[trigger] cells[row]).len() == BUFFER_WIDTH
}

/// The grid `cells` with the cell at (`row`, `col`) replaced by `cell`.
pub open spec fn grid_write(cells: Seq<Seq<ScreenChar>>, row: int, col: int, cell: ScreenChar) -> Seq<
    Seq<ScreenChar>,
> {
    cells.update(row, cells[row].update(col, cell))
}

/// `volatile::Volatile`, a wrapper that makes every load and store of the
/// value inside it a volatile one. Nothing is known of what is inside but
/// through `cell_value`.
#[verifier::external_type_specification]
#[verifier::external_body]
#[verifier::reject_recursive_types(T)]
pub struct ExVolatile<T: Copy>(Volatile<T>);

/// The value that a volatile cell holds: what `Volatile::read` loads from it
/// and what `Volatile::write` last stored into it. This takes the memory
/// behind the cell to keep what is stored, as ordinary memory and the text
/// memory of a display do.
pub uninterp spec fn cell_value(cell: Volatile<ScreenChar>) -> ScreenChar;

/// `Volatile::read`: a volatile load of the wrapped value. Trusted to return
/// the value that the cell holds, and never to panic.
#[verifier::external_body]
fn cell_read(cell: &Volatile<ScreenChar>) -> (value: ScreenChar)
    ensures
        value == cell_value(*cell),
{
    cell.read()
}

/// `Volatile::write`: a volatile store into the wrapped value. Trusted to
/// leave the cell holding `value`, and never to panic.
#[verifier::external_body]
fn cell_write(cell: &mut Volatile<ScreenChar>, value: ScreenChar)
    ensures
        cell_value(*final(cell)) == value,
{
    cell.write(value)
}

/// The grid as it lies in display memory: row after row of volatile cells.
pub struct Buffer {
    pub chars: [[Volatile<ScreenChar>; BUFFER_WIDTH]; BUFFER_HEIGHT],
}

impl Buffer {
    /// The cells that the grid holds, row by row.
    pub open spec fn view(&self) -> Seq<Seq<ScreenChar>> {
        Seq::new(
            BUFFER_HEIGHT as nat,
            |row: int| Seq::new(BUFFER_WIDTH as nat, |col: int| cell_value(self.chars[row][col])),
        )
    }

    /// Loads the cell at (`row`, `col`).
    pub fn read(&self, row: usize, col: usize) -> (cell: ScreenChar)
        requires
            row < BUFFER_HEIGHT,
            col < BUFFER_WIDTH,
        ensures
            cell == self@[row as int][col as int],
    {
        cell_read(&self.chars[row][col])
    }

    /// Stores `cell` at (`row`, `col`); every other cell keeps its value.
    pub fn write(&mut self, row: usize, col: usize, cell: ScreenChar)
        requires
            row < BUFFER_HEIGHT,
            col < BUFFER_WIDTH,
        ensures
            final(self)@ == grid_write(old(self)@, row as int, col as int, cell),
    {
        cell_write(&mut self.chars[row][col], cell);
        proof {
            let want = grid_write(old(self)@, row as int, col as int, cell);
            assert forall|r: int| 0 <= r < BUFFER_HEIGHT implies #[trigger] self@[r] =~= want[r] by {
                assert forall|c: int| 0 <= c < BUFFER_WIDTH implies #[trigger] self@[r][c]
                    == want[r][c] by {
                    if r != row as int || c != col as int {
                        assert(self.chars[r][c] == old(self).chars[r][c]);
                    }
                }
            }
            assert(self@ =~= want);
        }
    }

    /// Every buffer has the shape of the grid.
    pub proof fn lemma_view_wf(&self)
        ensures
            grid_wf(self@),
    {
    }
}

} // verus!
