//! Error kinds that a game can report. Neither is fatal: the board is
//! unchanged whenever one is returned.

use vstd::prelude::*;

verus! {

/// The recoverable errors of the game engine.
#[derive(Debug, Clone, Copy, PartialEq, Eq, Structural)]
pub enum GameError {
    /// A move targeted a space that already carries a mark.
    SpaceOccupied,
    /// A numeric space index fell outside the board.
    InvalidSpace,
}

impl GameError {
    /// A one-line description of the error, for the caller to show.
    pub fn message(&self) -> (m: &'static str)
        ensures
            (self is SpaceOccupied ==> m@ == "Cannot add a move to an already occupied space"@),
            (self is InvalidSpace ==> m@ == "That space does not exist on the board"@),
    {
        match self {
            GameError::SpaceOccupied => "Cannot add a move to an already occupied space",
            GameError::InvalidSpace => "That space does not exist on the board",
        }
    }
}

} // verus!
