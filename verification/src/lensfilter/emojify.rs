//! The emoji lens: one face per cell.

use super::{spec_project, LensFilter};
use crate::matrix::Matrix;
use crate::rng::random_below;
use crate::text::push_char;
use vstd::prelude::*;

verus! {

/// The faces an alive cell may wear.
pub open spec fn spec_emojify_alive(i: int) -> char
    recommends
        0 <= i < 10,
{
    if i == 0 {
        '😆'
    } else if i == 1 {
        '🤣'
    } else if i == 2 {
        '😊'
    } else if i == 3 {
        '🥰'
    } else if i == 4 {
        '😍'
    } else if i == 5 {
        '🤗'
    } else if i == 6 {
        '🤭'
    } else if i == 7 {
        '😋'
    } else if i == 8 {
        '🤤'
    } else {
        '😤'
    }
}

/// The faces a dead cell may wear.
pub open spec fn spec_emojify_dead(i: int) -> char
    recommends
        0 <= i < 9,
{
    if i == 0 {
        '🤢'
    } else if i == 1 {
        '🥶'
    } else if i == 2 {
        '🥵'
    } else if i == 3 {
        '😡'
    } else if i == 4 {
        '🤬'
    } else if i == 5 {
        '😈'
    } else if i == 6 {
        '👿'
    } else if i == 7 {
        '🤡'
    } else {
        '👻'
    }
}

/// The alive face at the given position.
fn emojify_alive(i: usize) -> (r: char)
    requires
        i < 10,
    ensures
        r == spec_emojify_alive(i as int),
{
    match i {
        0 => '😆',
        1 => '🤣',
        2 => '😊',
        3 => '🥰',
        4 => '😍',
        5 => '🤗',
        6 => '🤭',
        7 => '😋',
        8 => '🤤',
        _ => '😤',
    }
}

/// The dead face at the given position.
fn emojify_dead(i: usize) -> (r: char)
    requires
        i < 9,
    ensures
        r == spec_emojify_dead(i as int),
{
    match i {
        0 => '🤢',
        1 => '🥶',
        2 => '🥵',
        3 => '😡',
        4 => '🤬',
        5 => '😈',
        6 => '👿',
        7 => '🤡',
        _ => '👻',
    }
}

/// Shows an alive cell as one face and a dead cell as another.
#[derive(Debug)]
pub struct Emojify {
    alive: String,
    dead: String,
}

impl Emojify {
    /// An emoji lens with the given pair of faces.
    pub fn new(emoji_alive: char, emoji_dead: char) -> (r: Emojify)
        ensures
            r.spec_alive() == seq![emoji_alive],
            r.spec_dead() == seq![emoji_dead],
    {
        let mut alive: String = String::new();
        push_char(&mut alive, emoji_alive);
        let mut dead: String = String::new();
        push_char(&mut dead, emoji_dead);
        proof {
            assert(alive@ =~= seq![emoji_alive]);
            assert(dead@ =~= seq![emoji_dead]);
        }
        Emojify { alive, dead }
    }

    /// An emoji lens with one face drawn at random from each set.
    pub fn random() -> (r: Emojify)
        ensures
            exists|i: int| 0 <= i < 10 && r.spec_alive() == seq![spec_emojify_alive(i)],
            exists|i: int| 0 <= i < 9 && r.spec_dead() == seq![spec_emojify_dead(i)],
    {
        let ai: usize = random_below(10);
        let di: usize = random_below(9);
        let r: Emojify = Emojify::new(emojify_alive(ai), emojify_dead(di));
        proof {
            assert(r.spec_alive() == seq![spec_emojify_alive(ai as int)]);
            assert(r.spec_dead() == seq![spec_emojify_dead(di as int)]);
        }
        r
    }

    /// The face this lens shows for an alive cell.
    pub closed spec fn spec_alive(&self) -> Seq<char> {
        self.alive@
    }

    /// The face this lens shows for a dead cell.
    pub closed spec fn spec_dead(&self) -> Seq<char> {
        self.dead@
    }
}

impl LensFilter for Emojify {
    open spec fn spec_observe(&self, gen: Matrix<bool>) -> Seq<Seq<char>> {
        spec_project(gen, self.spec_alive(), self.spec_dead())
    }

    fn observe(&self, gen: &Matrix<bool>) -> (r: Vec<String>)
        ensures
            r@.len() == self.spec_observe(*gen).len(),
            forall|i: int|
                0 <= i < r@.len() ==> (#[trigger] r@[i])@ == self.spec_observe(*gen)[i],
    {
        super::project_rows(gen, self.alive.as_str(), self.dead.as_str())
    }
}

} // verus!
