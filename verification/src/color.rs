//! Colours of the 16-entry text-mode palette and the attribute byte that a
//! cell carries.

use vstd::prelude::*;

verus! {

/// The sixteen colours of the palette, in palette order.
#[derive(Debug, Clone, Copy, PartialEq, Eq, Structural)]
pub enum Color {
    Black,
    Blue,
    Green,
    Cyan,
    Red,
    Magenta,
    Brown,
    LightGray,
    DarkGray,
    LightBlue,
    LightGreen,
    LightCyan,
    LightRed,
    Pink,
    Yellow,
    White,
}

impl Color {
    /// The palette index of a colour, a number below 16.
    pub open spec fn spec_index(self) -> u8 {
        match self {
            Color::Black => 0,
            Color::Blue => 1,
            Color::Green => 2,
            Color::Cyan => 3,
            Color::Red => 4,
            Color::Magenta => 5,
            Color::Brown => 6,
            Color::LightGray => 7,
            Color::DarkGray => 8,
            Color::LightBlue => 9,
            Color::LightGreen => 10,
            Color::LightCyan => 11,
            Color::LightRed => 12,
            Color::Pink => 13,
            Color::Yellow => 14,
            Color::White => 15,
        }
    }

    /// The palette index of a colour.
    #[verifier::when_used_as_spec(spec_index)]
    pub fn index(self) -> (i: u8)
        ensures
            i == self.spec_index(),
            i < 16,
    {
        match self {
            Color::Black => 0,
            Color::Blue => 1,
            Color::Green => 2,
            Color::Cyan => 3,
            Color::Red => 4,
            Color::Magenta => 5,
            Color::Brown => 6,
            Color::LightGray => 7,
            Color::DarkGray => 8,
            Color::LightBlue => 9,
            Color::LightGreen => 10,
            Color::LightCyan => 11,
            Color::LightRed => 12,
            Color::Pink => 13,
            Color::Yellow => 14,
            Color::White => 15,
        }
    }
}

/// A foreground and a background colour packed into the attribute byte of a
/// cell: the background in the high four bits, the foreground in the low four.
#[derive(Debug, Clone, Copy, PartialEq, Eq, Structural)]
pub struct ColorCode(u8);

impl ColorCode {
    /// The attribute byte.
    pub closed spec fn spec_bits(self) -> u8 {
        self.0
    }

    /// Packs a colour pair. Every pair has a code, and the pair can be read
    /// back from it: the code is `16 * background + foreground`.
    pub fn new(foreground: Color, background: Color) -> (code: ColorCode)
        ensures
            code.bits() == 16 * background.index() + foreground.index(),
    {
        let high: u8 = background.index();
        let low: u8 = foreground.index();
        assert((high << 4 | low) == 16 * high + low) by (bit_vector)
            requires
                high < 16,
                low < 16,
        ;
        ColorCode(high << 4 | low)
    }

    /// The attribute byte, as the display hardware reads it.
    #[verifier::when_used_as_spec(spec_bits)]
    pub fn bits(self) -> (b: u8)
        ensures
            b == self.spec_bits(),
    {
        self.0
    }

    /// Two codes with the same attribute byte are the same code.
    pub proof fn lemma_bits_injective(a: ColorCode, b: ColorCode)
        requires
            a.bits() == b.bits(),
        ensures
            a == b,
    {
    }
}

} // verus!
