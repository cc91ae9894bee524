//! The emoji filter: one randomly chosen face for dead cells and one for
//! alive cells.

use super::Filter;
use crate::cell::Cell;
use crate::rng::random_below;
use vstd::prelude::*;

verus! {

/// The faces a dead cell may wear.
pub open spec fn spec_dead_symbol(i: int) -> Seq<char>
    recommends
        0 <= i < 9,
{
    if i == 0 {
        "🤢"@
    } else if i == 1 {
        "🥶"@
    } else if i == 2 {
        "🥵"@
    } else if i == 3 {
        "😡"@
    } else if i == 4 {
        "🤬"@
    } else if i == 5 {
        "😈"@
    } else if i == 6 {
        "👿"@
    } else if i == 7 {
        "🤡"@
    } else {
        "👻"@
    }
}

/// The faces an alive cell may wear.
pub open spec fn spec_alive_symbol(i: int) -> Seq<char>
    recommends
        0 <= i < 9,
{
    if i == 0 {
        "🤣"@
    } else if i == 1 {
        "😊"@
    } else if i == 2 {
        "🥰"@
    } else if i == 3 {
        "😍"@
    } else if i == 4 {
        "🤗"@
    } else if i == 5 {
        "🤭"@
    } else if i == 6 {
        "😋"@
    } else if i == 7 {
        "😤"@
    } else {
        "🤤"@
    }
}

/// The dead face at the given position.
fn dead_symbol(i: usize) -> (r: &'static str)
    requires
        i < 9,
    ensures
        r@ == spec_dead_symbol(i as int),
{
    match i {
        0 => "🤢",
        1 => "🥶",
        2 => "🥵",
        3 => "😡",
        4 => "🤬",
        5 => "😈",
        6 => "👿",
        7 => "🤡",
        _ => "👻",
    }
}

/// The alive face at the given position.
fn alive_symbol(i: usize) -> (r: &'static str)
    requires
        i < 9,
    ensures
        r@ == spec_alive_symbol(i as int),
{
    match i {
        0 => "🤣",
        1 => "😊",
        2 => "🥰",
        3 => "😍",
        4 => "🤗",
        5 => "🤭",
        6 => "😋",
        7 => "😤",
        _ => "🤤",
    }
}

/// Shows a dead cell as one fixed face and an alive cell as another, each
/// drawn at random from its set when the filter is made.
#[derive(Debug)]
pub struct Emoji {
    dead: &'static str,
    alive: &'static str,
}

impl Emoji {
    /// Draws one dead face and one alive face at random.
    pub fn random() -> (r: Emoji)
        ensures
            exists|i: int| 0 <= i < 9 && r.spec_filter(Cell::Dead) == spec_dead_symbol(i),
            exists|i: int| 0 <= i < 9 && r.spec_filter(Cell::Alive) == spec_alive_symbol(i),
    {
        let di: usize = random_below(9);
        let ai: usize = random_below(9);
        let r: Emoji = Emoji { dead: dead_symbol(di), alive: alive_symbol(ai) };
        proof {
            assert(r.spec_filter(Cell::Dead) == spec_dead_symbol(di as int));
            assert(r.spec_filter(Cell::Alive) == spec_alive_symbol(ai as int));
        }
        r
    }
}

impl Filter for Emoji {
    closed spec fn spec_filter(&self, cell: Cell) -> Seq<char> {
        match cell {
            Cell::Dead => self.dead@,
            Cell::Alive => self.alive@,
        }
    }

    fn filter(&self, cell: Cell) -> (r: &str)
        ensures
            r@ == self.spec_filter(cell),
    {
        match cell {
            Cell::Dead => self.dead,
            Cell::Alive => self.alive,
        }
    }
}

} // verus!
