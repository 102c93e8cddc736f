//! Board geometry: the 64 squares of the board and the 16 step directions
//! (8 queen-like steps and 8 knight leaps).
//!
//! A square is a bounded index in `[0, 64)`; rank and file are both counted
//! from 1 to 8. Adding a direction to a square is only meaningful when the
//! destination stays on the board, so [`Square::step`] folds the bounds check
//! into the addition and returns `None` when the step would wrap around an
//! edge.

use vstd::prelude::*;

verus! {

/// One of the 16 fixed step vectors: 8 queen-like single steps and
/// 8 knight leaps.
#[derive(Clone, Copy, PartialEq, Eq, Structural, Debug)]
pub enum Direction {
    Up,
    Down,
    Left,
    Right,
    UpLeft,
    UpRight,
    DownLeft,
    DownRight,
    UpUpLeft,
    UpUpRight,
    LeftLeftUp,
    LeftLeftDown,
    RightRightUp,
    RightRightDown,
    DownDownLeft,
    DownDownRight,
}

impl Direction {
    /// The signed index offset of one step in this direction.
    pub open spec fn offset(self) -> int {
        match self {
            Direction::Up => 8,
            Direction::Down => -8,
            Direction::Left => -1,
            Direction::Right => 1,
            Direction::UpLeft => 7,
            Direction::UpRight => 9,
            Direction::DownLeft => -9,
            Direction::DownRight => -7,
            Direction::UpUpLeft => 15,
            Direction::UpUpRight => 17,
            Direction::LeftLeftUp => 6,
            Direction::LeftLeftDown => -10,
            Direction::RightRightUp => 10,
            Direction::RightRightDown => -6,
            Direction::DownDownLeft => -17,
            Direction::DownDownRight => -15,
        }
    }
}

/// A board square, stored as an index in `[0, 64)`.
///
/// Index 0 is the lower-left corner (rank 1, file 1); indices run file-first,
/// so index 7 is rank 1, file 8 and index 63 is rank 8, file 8.
#[derive(Clone, Copy, PartialEq, Eq, Structural, Debug)]
pub struct Square {
    pub idx: u8,
}

impl Square {
    /// The square lies on the board.
    pub open spec fn wf(self) -> bool {
        self.idx < 64
    }

    /// Rank of the square, from 1 to 8.
    pub open spec fn rank_spec(self) -> int {
        self.idx as int / 8 + 1
    }

    /// File of the square, from 1 to 8.
    pub open spec fn file_spec(self) -> int {
        self.idx as int % 8 + 1
    }

    /// One step in direction `d` stays on the board: the exact file/rank
    /// range beyond which the step would wrap to the opposite edge.
    pub open spec fn step_in_bounds(self, d: Direction) -> bool {
        match d {
            Direction::Up => self.rank_spec() < 8,
            Direction::Down => self.rank_spec() > 1,
            Direction::Left => self.file_spec() > 1,
            Direction::Right => self.file_spec() < 8,
            Direction::UpLeft => self.file_spec() > 1 && self.rank_spec() < 8,
            Direction::UpRight => self.file_spec() < 8 && self.rank_spec() < 8,
            Direction::DownLeft => self.file_spec() > 1 && self.rank_spec() > 1,
            Direction::DownRight => self.file_spec() < 8 && self.rank_spec() > 1,
            Direction::UpUpLeft => self.rank_spec() < 7 && self.file_spec() > 1,
            Direction::UpUpRight => self.rank_spec() < 7 && self.file_spec() < 8,
            Direction::LeftLeftUp => self.rank_spec() < 8 && self.file_spec() > 2,
            Direction::LeftLeftDown => self.rank_spec() > 1 && self.file_spec() > 2,
            Direction::RightRightUp => self.rank_spec() < 8 && self.file_spec() < 7,
            Direction::RightRightDown => self.rank_spec() > 1 && self.file_spec() < 7,
            Direction::DownDownLeft => self.rank_spec() > 2 && self.file_spec() > 1,
            Direction::DownDownRight => self.rank_spec() > 2 && self.file_spec() < 8,
        }
    }

    /// The destination of one step in direction `d`, meaningful only when
    /// `step_in_bounds(d)` holds.
    pub open spec fn stepped(self, d: Direction) -> Square {
        Square { idx: (self.idx + d.offset()) as u8 }
    }

    /// Builds the square at the given rank and file, both counted from 1.
    pub fn from_coordinates(row: u8, col: u8) -> (r: Square)
        requires
            1 <= row <= 8,
            1 <= col <= 8,
        ensures
            r.wf(),
            r.idx == (row - 1) * 8 + (col - 1),
            r.rank_spec() == row,
            r.file_spec() == col,
    {
        Square { idx: (row - 1) * 8 + (col - 1) }
    }

    /// Rank of the square, from 1 to 8 on a well-formed square.
    pub fn rank(&self) -> (r: u8)
        ensures
            r == self.rank_spec(),
    {
        self.idx / 8 + 1
    }

    /// File of the square, from 1 to 8 on a well-formed square.
    pub fn file(&self) -> (r: u8)
        ensures
            r == self.file_spec(),
    {
        self.idx % 8 + 1
    }

    /// Adds one step in direction `d`, returning `None` when the destination
    /// would leave the board. The bounds check is part of the addition, so no
    /// caller can perform wrapping square arithmetic.
    pub fn step(self, d: Direction) -> (r: Option<Square>)
        requires
            self.wf(),
        ensures
            r == if self.step_in_bounds(d) {
                Some(self.stepped(d))
            } else {
                None::<Square>
            },
            r matches Some(t) ==> t.wf() && t.idx == self.idx + d.offset(),
    {
        match d {
            Direction::Up => {
                if self.rank() < 8 {
                    Some(Square { idx: self.idx + 8 })
                } else {
                    None
                }
            },
            Direction::Down => {
                if self.rank() > 1 {
                    Some(Square { idx: self.idx - 8 })
                } else {
                    None
                }
            },
            Direction::Left => {
                if self.file() > 1 {
                    Some(Square { idx: self.idx - 1 })
                } else {
                    None
                }
            },
            Direction::Right => {
                if self.file() < 8 {
                    Some(Square { idx: self.idx + 1 })
                } else {
                    None
                }
            },
            Direction::UpLeft => {
                if self.file() > 1 && self.rank() < 8 {
                    Some(Square { idx: self.idx + 7 })
                } else {
                    None
                }
            },
            Direction::UpRight => {
                if self.file() < 8 && self.rank() < 8 {
                    Some(Square { idx: self.idx + 9 })
                } else {
                    None
                }
            },
            Direction::DownLeft => {
                if self.file() > 1 && self.rank() > 1 {
                    Some(Square { idx: self.idx - 9 })
                } else {
                    None
                }
            },
            Direction::DownRight => {
                if self.file() < 8 && self.rank() > 1 {
                    Some(Square { idx: self.idx - 7 })
                } else {
                    None
                }
            },
            Direction::UpUpLeft => {
                if self.rank() < 7 && self.file() > 1 {
                    Some(Square { idx: self.idx + 15 })
                } else {
                    None
                }
            },
            Direction::UpUpRight => {
                if self.rank() < 7 && self.file() < 8 {
                    Some(Square { idx: self.idx + 17 })
                } else {
                    None
                }
            },
            Direction::LeftLeftUp => {
                if self.rank() < 8 && self.file() > 2 {
                    Some(Square { idx: self.idx + 6 })
                } else {
                    None
                }
            },
            Direction::LeftLeftDown => {
                if self.rank() > 1 && self.file() > 2 {
                    Some(Square { idx: self.idx - 10 })
                } else {
                    None
                }
            },
            Direction::RightRightUp => {
                if self.rank() < 8 && self.file() < 7 {
                    Some(Square { idx: self.idx + 10 })
                } else {
                    None
                }
            },
            Direction::RightRightDown => {
                if self.rank() > 1 && self.file() < 7 {
                    Some(Square { idx: self.idx - 6 })
                } else {
                    None
                }
            },
            Direction::DownDownLeft => {
                if self.rank() > 2 && self.file() > 1 {
                    Some(Square { idx: self.idx - 17 })
                } else {
                    None
                }
            },
            Direction::DownDownRight => {
                if self.rank() > 2 && self.file() < 8 {
                    Some(Square { idx: self.idx - 15 })
                } else {
                    None
                }
            },
        }
    }
}

/// An in-bounds step lands on the board: the destination index is the source
/// index shifted by the direction's offset, and stays in `[0, 64)`.
pub proof fn lemma_step_on_board(s: Square, d: Direction)
    requires
        s.wf(),
        s.step_in_bounds(d),
    ensures
        0 <= s.idx + d.offset() < 64,
        s.stepped(d).wf(),
        s.stepped(d).idx == s.idx + d.offset(),
{
}

} // verus!
