//! The two-state cell of the automaton.

use vstd::prelude::*;

verus! {

/// State of one grid position: either `Dead` or `Alive`.
#[derive(Clone, Copy, Debug, PartialEq, Eq, Structural)]
pub enum Cell {
    Dead,
    Alive,
}

impl Cell {
    /// Returns whether the cell is alive.
    pub fn is_alive(&self) -> (r: bool)
        ensures
            r == (*self == Cell::Alive),
    {
        *self == Cell::Alive
    }

    /// Forces the cell into the dead state, whatever it held before.
    pub fn die(&mut self)
        ensures
            *final(self) == Cell::Dead,
    {
        *self = Cell::Dead;
    }

    /// Forces the cell into the alive state, whatever it held before.
    pub fn revive(&mut self)
        ensures
            *final(self) == Cell::Alive,
    {
        *self = Cell::Alive;
    }
}

impl Default for Cell {
    /// A freshly allocated cell is dead.
    fn default() -> (r: Self)
        ensures
            r == Cell::Dead,
    {
        Cell::Dead
    }
}

impl From<bool> for Cell {
    fn from(value: bool) -> (r: Self)
        ensures
            r == (if value {
                Cell::Alive
            } else {
                Cell::Dead
            }),
    {
        if value {
            Cell::Alive
        } else {
            Cell::Dead
        }
    }
}

impl vstd::std_specs::convert::FromSpecImpl<bool> for Cell {
    open spec fn obeys_from_spec() -> bool {
        true
    }

    open spec fn from_spec(value: bool) -> Cell {
        if value {
            Cell::Alive
        } else {
            Cell::Dead
        }
    }
}

} // verus!
