//! The cursor used for spatial (arrow-key) move selection: a position on the
//! board owned by the selecting player, moved one cell at a time with
//! wrap-around. The cursor may rest on an occupied space — occupancy is only
//! checked when its position is submitted as a move.

use vstd::prelude::*;

use crate::game::{Coordinate, Game, Player};

verus! {

/// The four cardinal directions a cursor can move in.
#[derive(Debug, Clone, Copy, PartialEq, Eq, Structural)]
pub enum Direction {
    Up,
    Down,
    Left,
    Right,
}

/// The flat index of the first unmarked cell at or after `i`, in row-major
/// order.
pub open spec fn first_unmarked_from(marks: Seq<Option<Player>>, i: int) -> Option<int>
    decreases 9 - i,
{
    if i >= 9 {
        None
    } else if marks[i] is None {
        Some(i)
    } else {
        first_unmarked_from(marks, i + 1)
    }
}

/// The flat index of the first unmarked cell of the board, if any.
pub open spec fn first_unmarked(marks: Seq<Option<Player>>) -> Option<int> {
    first_unmarked_from(marks, 0)
}

/// One step down the axis, wrapping below 0 to 2.
pub open spec fn wrap_dec(v: int) -> int {
    if v == 0 {
        2
    } else {
        v - 1
    }
}

/// One step up the axis, wrapping above 2 to 0.
pub open spec fn wrap_inc(v: int) -> int {
    if v == 2 {
        0
    } else {
        v + 1
    }
}

/// The row after shifting `c` one cell in `direction`.
pub open spec fn shifted_row(c: Coordinate, direction: Direction) -> int {
    match direction {
        Direction::Up => wrap_dec(c.row as int),
        Direction::Down => wrap_inc(c.row as int),
        Direction::Left => c.row as int,
        Direction::Right => c.row as int,
    }
}

/// The column after shifting `c` one cell in `direction`.
pub open spec fn shifted_col(c: Coordinate, direction: Direction) -> int {
    match direction {
        Direction::Left => wrap_dec(c.col as int),
        Direction::Right => wrap_inc(c.col as int),
        Direction::Up => c.col as int,
        Direction::Down => c.col as int,
    }
}

/// Transient selection state: the player doing the selecting and the board
/// position the cursor rests on.
#[derive(Debug, Clone, Copy)]
pub struct Cursor {
    pub player: Player,
    pub coordinate: Coordinate,
}

impl Cursor {
    /// The cursor rests on the board.
    pub open spec fn wf(self) -> bool {
        self.coordinate.wf()
    }

    pub fn new(player: Player, row: usize, col: usize) -> (c: Cursor)
        requires
            row < 3,
            col < 3,
        ensures
            c.player == player,
            c.coordinate.row == row,
            c.coordinate.col == col,
            c.wf(),
    {
        let coordinate = Coordinate::new(row, col);
        Cursor { player, coordinate }
    }

    /// A cursor for the game's current player, resting on the first unmarked
    /// space in row-major order; `None` exactly when the board is full.
    pub fn first_available(game: &Game) -> (r: Option<Cursor>)
        requires
            game.wf(),
        ensures
            match r {
                Some(c) => c.wf() && c.player == game.player && first_unmarked(game.marks())
                    == Some(c.coordinate.idx()),
                None => first_unmarked(game.marks()) is None,
            },
    {
        let player = game.current_player();
        let spaces = game.iter();
        let mut k: usize = 0;
        while k < 9
            invariant
                k <= 9,
                game.wf(),
                player == game.player,
                spaces@.len() == 9,
                forall|i: int| 0 <= i < 9 ==> spaces@[i] == game.board@[i],
                first_unmarked(game.marks()) == first_unmarked_from(game.marks(), k as int),
            decreases 9 - k,
        {
            let space = spaces[k];
            if space.get_mark().is_none() {
                let (row, col) = space.get_coordinate().get_tuple();
                return Some(Cursor::new(player, row, col));
            }
            k += 1;
        }
        None
    }

    /// Move one cell in the given direction, wrapping around the board edge:
    /// stepping below row or column 0 wraps to 2, and above 2 wraps to 0.
    pub fn shift(&mut self, direction: Direction)
        requires
            old(self).wf(),
        ensures
            final(self).wf(),
            final(self).player == old(self).player,
            final(self).coordinate.row == shifted_row(old(self).coordinate, direction),
            final(self).coordinate.col == shifted_col(old(self).coordinate, direction),
    {
        let (mut row, mut col) = self.coordinate.get_tuple();
        match direction {
            Direction::Up => if row == 0 {
                row = 2
            } else {
                row -= 1
            },
            Direction::Left => if col == 0 {
                col = 2
            } else {
                col -= 1
            },
            Direction::Down => if row == 2 {
                row = 0
            } else {
                row += 1
            },
            Direction::Right => if col == 2 {
                col = 0
            } else {
                col += 1
            },
        }
        self.coordinate = Coordinate::new(row, col);
    }

    /// The position the cursor rests on.
    pub fn get_coordinate(&self) -> (c: Coordinate)
        ensures
            c == self.coordinate,
    {
        self.coordinate
    }
}

} // verus!
