//! The choice enums of the command line: which filter observes the world
//! and which colors a dye filter paints with. Parsing the command line
//! itself happens outside the library; these are the parsed values.

use vstd::prelude::*;

verus! {

/// The filter chosen to observe the world.
#[derive(Clone, Copy, Debug, PartialEq, Eq, Structural)]
pub enum FilterKind {
    Bit,
    Block,
    Dye,
    Emoji,
    Hanzi,
}

/// A terminal color choice.
#[derive(Clone, Copy, Debug, PartialEq, Eq, Structural)]
pub enum ColorKind {
    Black,
    Red,
    Green,
    Yellow,
    Blue,
    Magenta,
    Cyan,
    White,
}

/// The lower-case name of a color choice.
pub open spec fn spec_color_name(kind: ColorKind) -> Seq<char> {
    match kind {
        ColorKind::Black => "black"@,
        ColorKind::Red => "red"@,
        ColorKind::Green => "green"@,
        ColorKind::Yellow => "yellow"@,
        ColorKind::Blue => "blue"@,
        ColorKind::Magenta => "magenta"@,
        ColorKind::Cyan => "cyan"@,
        ColorKind::White => "white"@,
    }
}

impl ColorKind {
    /// The color's lower-case name, as the escape-sequence table knows it.
    pub fn name(&self) -> (r: &'static str)
        ensures
            r@ == spec_color_name(*self),
    {
        match self {
            ColorKind::Black => "black",
            ColorKind::Red => "red",
            ColorKind::Green => "green",
            ColorKind::Yellow => "yellow",
            ColorKind::Blue => "blue",
            ColorKind::Magenta => "magenta",
            ColorKind::Cyan => "cyan",
            ColorKind::White => "white",
        }
    }
}

} // verus!
