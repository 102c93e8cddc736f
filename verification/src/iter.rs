//! A cursor over a board's 64 slots in square order.
//!
//! Each call to [`SquareIterator::next`] yields the occupant of the next
//! square (which may be `None` for an empty square) until all 64 squares
//! have been visited.

use vstd::prelude::*;

use crate::board::Board;
use crate::piece::Piece;

verus! {

/// A cursor over the slots of a borrowed board, from square index 0 to 63.
pub struct SquareIterator<'a> {
    pub board: &'a Board,
    pub position: u8,
}

impl<'a> SquareIterator<'a> {
    /// Starts a cursor at the first square of `board`.
    pub fn new(board: &'a Board) -> (r: Self)
        ensures
            r.board == board,
            r.position == 0,
    {
        Self { board, position: 0 }
    }

    /// Yields the occupant of the next square and advances, or `None` once
    /// every square has been visited.
    pub fn next(&mut self) -> (r: Option<Option<Piece>>)
        requires
            old(self).board.wf(),
        ensures
            final(self).board == old(self).board,
            old(self).position < 64 ==> final(self).position == old(self).position + 1 && r
                == Some(old(self).board@.squares[old(self).position as int]),
            old(self).position >= 64 ==> final(self).position == old(self).position && r
                == None::<Option<Piece>>,
    {
        if self.position < 64 {
            let here = self.board.piece_at(crate::square::Square { idx: self.position });
            self.position = self.position + 1;
            Some(here)
        } else {
            None
        }
    }
}

} // verus!
