//! A text console on a fixed grid of character cells.
//!
//! The grid mirrors the memory that a VGA-compatible text display reads: rows
//! of two-byte cells, each a character code and a colour attribute. A writer
//! keeps a cursor and a current colour, and turns a stream of bytes into cell
//! writes, wrapping at the right edge and scrolling at the bottom.
//!
//! Every function here is verified against a mathematical model of the
//! console, [`screen::Screen`]. The contracts say, for every byte and every
//! well-formed state, exactly what the grid and the cursor are afterwards.

pub mod buffer;
pub mod color;
pub mod laws;
pub mod screen;
pub mod writer;

pub use buffer::{Buffer, ScreenChar, BUFFER_HEIGHT, BUFFER_WIDTH};
pub use color::{Color, ColorCode};
pub use screen::Screen;
pub use writer::{KernelWriter, KernelWriterInfos, Writer};
