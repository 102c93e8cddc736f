//! The standard starting position: the 32 placements that put both armies
//! on their home squares.

use vstd::prelude::*;

use crate::piece::{Color, Kind, Piece};
use crate::square::Square;

verus! {

/// The 32 placements of the standard starting position: the white back rank
/// and pawns, then the black back rank and pawns, each rank in file order.
pub open spec fn spec_default_setup() -> Seq<(Square, Piece)> {
    seq![
        (Square { idx: 0 }, Piece { color: Color::White, kind: Kind::Rook }),
        (Square { idx: 1 }, Piece { color: Color::White, kind: Kind::Knight }),
        (Square { idx: 2 }, Piece { color: Color::White, kind: Kind::Bishop }),
        (Square { idx: 3 }, Piece { color: Color::White, kind: Kind::Queen }),
        (Square { idx: 4 }, Piece { color: Color::White, kind: Kind::King }),
        (Square { idx: 5 }, Piece { color: Color::White, kind: Kind::Bishop }),
        (Square { idx: 6 }, Piece { color: Color::White, kind: Kind::Knight }),
        (Square { idx: 7 }, Piece { color: Color::White, kind: Kind::Rook }),
        (Square { idx: 8 }, Piece { color: Color::White, kind: Kind::Pawn }),
        (Square { idx: 9 }, Piece { color: Color::White, kind: Kind::Pawn }),
        (Square { idx: 10 }, Piece { color: Color::White, kind: Kind::Pawn }),
        (Square { idx: 11 }, Piece { color: Color::White, kind: Kind::Pawn }),
        (Square { idx: 12 }, Piece { color: Color::White, kind: Kind::Pawn }),
        (Square { idx: 13 }, Piece { color: Color::White, kind: Kind::Pawn }),
        (Square { idx: 14 }, Piece { color: Color::White, kind: Kind::Pawn }),
        (Square { idx: 15 }, Piece { color: Color::White, kind: Kind::Pawn }),
        (Square { idx: 56 }, Piece { color: Color::Black, kind: Kind::Rook }),
        (Square { idx: 57 }, Piece { color: Color::Black, kind: Kind::Knight }),
        (Square { idx: 58 }, Piece { color: Color::Black, kind: Kind::Bishop }),
        (Square { idx: 59 }, Piece { color: Color::Black, kind: Kind::Queen }),
        (Square { idx: 60 }, Piece { color: Color::Black, kind: Kind::King }),
        (Square { idx: 61 }, Piece { color: Color::Black, kind: Kind::Bishop }),
        (Square { idx: 62 }, Piece { color: Color::Black, kind: Kind::Knight }),
        (Square { idx: 63 }, Piece { color: Color::Black, kind: Kind::Rook }),
        (Square { idx: 48 }, Piece { color: Color::Black, kind: Kind::Pawn }),
        (Square { idx: 49 }, Piece { color: Color::Black, kind: Kind::Pawn }),
        (Square { idx: 50 }, Piece { color: Color::Black, kind: Kind::Pawn }),
        (Square { idx: 51 }, Piece { color: Color::Black, kind: Kind::Pawn }),
        (Square { idx: 52 }, Piece { color: Color::Black, kind: Kind::Pawn }),
        (Square { idx: 53 }, Piece { color: Color::Black, kind: Kind::Pawn }),
        (Square { idx: 54 }, Piece { color: Color::Black, kind: Kind::Pawn }),
        (Square { idx: 55 }, Piece { color: Color::Black, kind: Kind::Pawn }),
    ]
}

/// Returns the placement list of the standard starting position, ready to
/// hand to `Board::populate`.
pub fn default_setup() -> (r: Vec<(Square, Piece)>)
    ensures
        r@ == spec_default_setup(),
        forall|i: int| 0 <= i < r@.len() ==> (#[trigger] r@[i]).0.wf(),
{
    let mut r: Vec<(Square, Piece)> = Vec::new();
    r.push((Square { idx: 0 }, Piece::new(Color::White, Kind::Rook)));
    r.push((Square { idx: 1 }, Piece::new(Color::White, Kind::Knight)));
    r.push((Square { idx: 2 }, Piece::new(Color::White, Kind::Bishop)));
    r.push((Square { idx: 3 }, Piece::new(Color::White, Kind::Queen)));
    r.push((Square { idx: 4 }, Piece::new(Color::White, Kind::King)));
    r.push((Square { idx: 5 }, Piece::new(Color::White, Kind::Bishop)));
    r.push((Square { idx: 6 }, Piece::new(Color::White, Kind::Knight)));
    r.push((Square { idx: 7 }, Piece::new(Color::White, Kind::Rook)));
    r.push((Square { idx: 8 }, Piece::new(Color::White, Kind::Pawn)));
    r.push((Square { idx: 9 }, Piece::new(Color::White, Kind::Pawn)));
    r.push((Square { idx: 10 }, Piece::new(Color::White, Kind::Pawn)));
    r.push((Square { idx: 11 }, Piece::new(Color::White, Kind::Pawn)));
    r.push((Square { idx: 12 }, Piece::new(Color::White, Kind::Pawn)));
    r.push((Square { idx: 13 }, Piece::new(Color::White, Kind::Pawn)));
    r.push((Square { idx: 14 }, Piece::new(Color::White, Kind::Pawn)));
    r.push((Square { idx: 15 }, Piece::new(Color::White, Kind::Pawn)));
    r.push((Square { idx: 56 }, Piece::new(Color::Black, Kind::Rook)));
    r.push((Square { idx: 57 }, Piece::new(Color::Black, Kind::Knight)));
    r.push((Square { idx: 58 }, Piece::new(Color::Black, Kind::Bishop)));
    r.push((Square { idx: 59 }, Piece::new(Color::Black, Kind::Queen)));
    r.push((Square { idx: 60 }, Piece::new(Color::Black, Kind::King)));
    r.push((Square { idx: 61 }, Piece::new(Color::Black, Kind::Bishop)));
    r.push((Square { idx: 62 }, Piece::new(Color::Black, Kind::Knight)));
    r.push((Square { idx: 63 }, Piece::new(Color::Black, Kind::Rook)));
    r.push((Square { idx: 48 }, Piece::new(Color::Black, Kind::Pawn)));
    r.push((Square { idx: 49 }, Piece::new(Color::Black, Kind::Pawn)));
    r.push((Square { idx: 50 }, Piece::new(Color::Black, Kind::Pawn)));
    r.push((Square { idx: 51 }, Piece::new(Color::Black, Kind::Pawn)));
    r.push((Square { idx: 52 }, Piece::new(Color::Black, Kind::Pawn)));
    r.push((Square { idx: 53 }, Piece::new(Color::Black, Kind::Pawn)));
    r.push((Square { idx: 54 }, Piece::new(Color::Black, Kind::Pawn)));
    r.push((Square { idx: 55 }, Piece::new(Color::Black, Kind::Pawn)));
    proof {
        assert(r@ =~= spec_default_setup());
    }
    r
}

} // verus!
