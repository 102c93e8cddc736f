//! The piece model: a piece is a color paired with a kind, and each color has
//! a fixed home square for its king.

use vstd::prelude::*;

use crate::square::Square;

verus! {

/// One of the six piece kinds.
#[derive(Clone, Copy, PartialEq, Eq, Structural, Debug)]
pub enum Kind {
    Bishop,
    King,
    Knight,
    Pawn,
    Queen,
    Rook,
}

/// One of the two sides.
#[derive(Clone, Copy, PartialEq, Eq, Structural, Debug)]
pub enum Color {
    Black,
    White,
}

impl Color {
    /// The opposing color.
    pub open spec fn other_spec(self) -> Color {
        match self {
            Color::Black => Color::White,
            Color::White => Color::Black,
        }
    }

    /// Index of the home square of this color's king: e1 for White, e8 for
    /// Black.
    pub open spec fn king_square_spec(self) -> Square {
        match self {
            Color::Black => Square { idx: 60 },
            Color::White => Square { idx: 4 },
        }
    }

    /// Returns the opposing color.
    pub fn other(&self) -> (r: Color)
        ensures
            r == self.other_spec(),
    {
        match self {
            Color::Black => Color::White,
            Color::White => Color::Black,
        }
    }

    /// Returns the home square of this color's king.
    pub fn king_square(&self) -> (r: Square)
        ensures
            r == self.king_square_spec(),
            r.wf(),
    {
        match self {
            Color::Black => Square { idx: 60 },
            Color::White => Square { idx: 4 },
        }
    }
}

/// An immutable (color, kind) pair.
#[derive(Clone, Copy, PartialEq, Eq, Structural, Debug)]
pub struct Piece {
    pub color: Color,
    pub kind: Kind,
}

impl Piece {
    /// Builds the piece with the given color and kind.
    pub fn new(color: Color, kind: Kind) -> (r: Piece)
        ensures
            r == (Piece { color, kind }),
    {
        Piece { color, kind }
    }

    /// The piece's color.
    pub fn color(&self) -> (r: Color)
        ensures
            r == self.color,
    {
        self.color
    }

    /// The piece's kind.
    pub fn kind(&self) -> (r: Kind)
        ensures
            r == self.kind,
    {
        self.kind
    }
}

} // verus!
