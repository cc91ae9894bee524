//! The dye filter: two colored spaces per cell.

use super::Filter;
use crate::cell::Cell;
use crate::cli::{spec_color_name, ColorKind};
use vstd::prelude::*;

verus! {

/// The text a dye filter paints for a cell of the given color: two spaces
/// on the color's background, followed by a background reset.
pub open spec fn dye_text(kind: ColorKind) -> Seq<char> {
    spec_bg_lit(kind) + "  "@ + "\x1b[49m"@
}

/// The background escape sequence of a color choice.
pub open spec fn spec_bg_lit(kind: ColorKind) -> Seq<char> {
    match kind {
        ColorKind::Black => "\x1b[40m"@,
        ColorKind::Red => "\x1b[41m"@,
        ColorKind::Green => "\x1b[42m"@,
        ColorKind::Yellow => "\x1b[43m"@,
        ColorKind::Blue => "\x1b[44m"@,
        ColorKind::Magenta => "\x1b[45m"@,
        ColorKind::Cyan => "\x1b[46m"@,
        ColorKind::White => "\x1b[47m"@,
    }
}

/// The background escape sequence of a color choice.
fn bg_lit(kind: ColorKind) -> (r: &'static str)
    ensures
        r@ == spec_bg_lit(kind),
{
    match kind {
        ColorKind::Black => "\x1b[40m",
        ColorKind::Red => "\x1b[41m",
        ColorKind::Green => "\x1b[42m",
        ColorKind::Yellow => "\x1b[43m",
        ColorKind::Blue => "\x1b[44m",
        ColorKind::Magenta => "\x1b[45m",
        ColorKind::Cyan => "\x1b[46m",
        ColorKind::White => "\x1b[47m",
    }
}

/// Paints one cell's text for the given color.
fn dye_sym(kind: ColorKind) -> (s: String)
    ensures
        s@ == dye_text(kind),
{
    let mut s: String = String::from_str(bg_lit(kind));
    s.append("  ");
    s.append("\x1b[49m");
    s
}

/// Shows every cell as two spaces on a colored background, one color for
/// dead cells and one for alive cells.
#[derive(Debug)]
pub struct Dye {
    dead: String,
    alive: String,
}

impl Dye {
    /// A dye filter painting dead cells on the first color and alive
    /// cells on the second.
    pub fn new(dead: ColorKind, alive: ColorKind) -> (r: Dye)
        ensures
            r.spec_filter(Cell::Dead) == dye_text(dead),
            r.spec_filter(Cell::Alive) == dye_text(alive),
    {
        Dye { dead: dye_sym(dead), alive: dye_sym(alive) }
    }
}

impl Filter for Dye {
    closed spec fn spec_filter(&self, cell: Cell) -> Seq<char> {
        match cell {
            Cell::Dead => self.dead@,
            Cell::Alive => self.alive@,
        }
    }

    fn filter(&self, cell: Cell) -> (r: &str)
        ensures
            r@ == self.spec_filter(cell),
    {
        match cell {
            Cell::Dead => self.dead.as_str(),
            Cell::Alive => self.alive.as_str(),
        }
    }
}

} // verus!
