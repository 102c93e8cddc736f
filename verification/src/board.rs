//! Board state: a 64-slot piece grid, the last move played (needed to
//! validate en passant), and the four castling rights, together with the
//! make/unmake mutation protocol.
//!
//! `make_move` mutates the board in place and returns an undo record that
//! captures everything it overwrote; the matching `unmake_move` consumes the
//! record and restores the exact prior state. The records of nested
//! `make_move` calls must be consumed in last-in-first-out order, so the
//! record is a non-copyable value.

use vstd::prelude::*;

use crate::moves::Move;
use crate::piece::{Color, Kind, Piece};
use crate::square::Square;

verus! {

/// One of the two castling sides.
#[derive(Clone, Copy, PartialEq, Eq, Structural, Debug)]
pub enum Side {
    Kingside,
    Queenside,
}

/// The four castling rights, keyed by color and side.
///
/// Over the lifetime of a board a right only ever transitions from held to
/// lost, never back; `unmake_move` restores an earlier snapshot wholesale.
#[derive(Clone, Copy, PartialEq, Eq, Structural, Debug)]
pub struct CastleRights {
    pub white_kingside: bool,
    pub white_queenside: bool,
    pub black_kingside: bool,
    pub black_queenside: bool,
}

impl CastleRights {
    /// All four rights held.
    pub open spec fn all_spec() -> CastleRights {
        CastleRights {
            white_kingside: true,
            white_queenside: true,
            black_kingside: true,
            black_queenside: true,
        }
    }

    /// The right of the given color and side is held.
    pub open spec fn held_spec(self, color: Color, side: Side) -> bool {
        match (color, side) {
            (Color::White, Side::Kingside) => self.white_kingside,
            (Color::White, Side::Queenside) => self.white_queenside,
            (Color::Black, Side::Kingside) => self.black_kingside,
            (Color::Black, Side::Queenside) => self.black_queenside,
        }
    }

    /// The given color still holds at least one castling right.
    pub open spec fn any_spec(self, color: Color) -> bool {
        match color {
            Color::White => self.white_kingside || self.white_queenside,
            Color::Black => self.black_kingside || self.black_queenside,
        }
    }

    /// The rights after clearing the right of the given color and side.
    pub open spec fn cleared_spec(self, color: Color, side: Side) -> CastleRights {
        match (color, side) {
            (Color::White, Side::Kingside) => CastleRights { white_kingside: false, ..self },
            (Color::White, Side::Queenside) => CastleRights { white_queenside: false, ..self },
            (Color::Black, Side::Kingside) => CastleRights { black_kingside: false, ..self },
            (Color::Black, Side::Queenside) => CastleRights { black_queenside: false, ..self },
        }
    }

    /// Every right held in `self` was already held in `before`: rights only
    /// ever transition from held to lost.
    pub open spec fn only_cleared_from(self, before: CastleRights) -> bool {
        &&& self.white_kingside ==> before.white_kingside
        &&& self.white_queenside ==> before.white_queenside
        &&& self.black_kingside ==> before.black_kingside
        &&& self.black_queenside ==> before.black_queenside
    }

    /// Returns the rights value with all four rights held.
    pub fn all() -> (r: CastleRights)
        ensures
            r == CastleRights::all_spec(),
    {
        CastleRights {
            white_kingside: true,
            white_queenside: true,
            black_kingside: true,
            black_queenside: true,
        }
    }

    /// Whether the right of the given color and side is held.
    pub fn held(&self, color: Color, side: Side) -> (r: bool)
        ensures
            r == self.held_spec(color, side),
    {
        match (color, side) {
            (Color::White, Side::Kingside) => self.white_kingside,
            (Color::White, Side::Queenside) => self.white_queenside,
            (Color::Black, Side::Kingside) => self.black_kingside,
            (Color::Black, Side::Queenside) => self.black_queenside,
        }
    }

    /// Clears the right of the given color and side.
    pub fn clear(&mut self, color: Color, side: Side)
        ensures
            *final(self) == old(self).cleared_spec(color, side),
    {
        match (color, side) {
            (Color::White, Side::Kingside) => self.white_kingside = false,
            (Color::White, Side::Queenside) => self.white_queenside = false,
            (Color::Black, Side::Kingside) => self.black_kingside = false,
            (Color::Black, Side::Queenside) => self.black_queenside = false,
        }
    }
}

/// The mathematical model of a board: the 64 slots as a sequence, the last
/// move played, and the castling rights.
#[verifier::ext_equal]
pub struct BoardModel {
    pub squares: Seq<Option<Piece>>,
    pub last_move: Option<Move>,
    pub rights: CastleRights,
}

impl BoardModel {
    /// The model is well-formed: exactly 64 slots, and the recorded last
    /// move, if any, lies on the board.
    pub open spec fn wf(self) -> bool {
        &&& self.squares.len() == 64
        &&& (self.last_move matches Some(m) ==> m.wf())
    }

    /// The slot of the given square.
    pub open spec fn at(self, s: Square) -> Option<Piece> {
        self.squares[s.idx as int]
    }
}

/// The undo record returned by `make_move`: everything the move overwrote.
///
/// It is deliberately neither copyable nor cloneable: the record of each
/// `make_move` is consumed by exactly one matching `unmake_move`, in
/// last-in-first-out order relative to nested `make_move` calls.
#[derive(Debug)]
pub struct MakeMoveModification {
    pub made_move: Move,
    pub last_move: Option<Move>,
    pub taken_piece: Option<Piece>,
    pub rights_before: CastleRights,
}

impl MakeMoveModification {
    /// The recorded move and prior last move lie on the board.
    pub open spec fn wf(self) -> bool {
        &&& self.made_move.wf()
        &&& (self.last_move matches Some(m) ==> m.wf())
    }
}

/// The castling rights remaining after the given piece leaves the given
/// origin square: a rook leaving its own color's corner loses that corner's
/// right, a king loses both of its color's rights.
pub open spec fn spec_clear_rights_for(rights: CastleRights, p: Piece, from: Square) -> CastleRights {
    if p.kind == Kind::Rook {
        match p.color {
            Color::White => {
                if from.idx == 0 {
                    rights.cleared_spec(Color::White, Side::Queenside)
                } else if from.idx == 7 {
                    rights.cleared_spec(Color::White, Side::Kingside)
                } else {
                    rights
                }
            },
            Color::Black => {
                if from.idx == 56 {
                    rights.cleared_spec(Color::Black, Side::Queenside)
                } else if from.idx == 63 {
                    rights.cleared_spec(Color::Black, Side::Kingside)
                } else {
                    rights
                }
            },
        }
    } else if p.kind == Kind::King {
        rights.cleared_spec(p.color, Side::Kingside).cleared_spec(p.color, Side::Queenside)
    } else {
        rights
    }
}

/// The board after making `m`: the origin empties, the destination takes the
/// moving piece (overwriting any occupant), the rights lost by the move are
/// cleared, and `m` becomes the last move.
pub open spec fn spec_make_board(b: BoardModel, m: Move) -> BoardModel {
    let p = b.squares[m.from.idx as int]->Some_0;
    BoardModel {
        squares: b.squares.update(m.from.idx as int, None).update(m.to.idx as int, Some(p)),
        last_move: Some(m),
        rights: spec_clear_rights_for(b.rights, p, m.from),
    }
}

/// The undo record captured just before making `m` on board `b`.
pub open spec fn spec_make_record(b: BoardModel, m: Move) -> MakeMoveModification {
    MakeMoveModification {
        made_move: m,
        last_move: b.last_move,
        taken_piece: b.squares[m.to.idx as int],
        rights_before: b.rights,
    }
}

/// The board after undoing with record `r`: the piece at the move's
/// destination returns to its origin, the recorded occupant returns to the
/// destination, and last move and rights are restored from the record.
pub open spec fn spec_unmake_board(b: BoardModel, r: MakeMoveModification) -> BoardModel {
    BoardModel {
        squares: b.squares.update(
            r.made_move.from.idx as int,
            b.squares[r.made_move.to.idx as int],
        ).update(r.made_move.to.idx as int, r.taken_piece),
        last_move: r.last_move,
        rights: r.rights_before,
    }
}

/// The 64 slots after placing each listed piece on its square, in order.
pub open spec fn spec_place_all(sq: Seq<Option<Piece>>, ps: Seq<(Square, Piece)>) -> Seq<
    Option<Piece>,
>
    decreases ps.len(),
{
    if ps.len() == 0 {
        sq
    } else {
        spec_place_all(sq.update(ps[0].0.idx as int, Some(ps[0].1)), ps.drop_first())
    }
}

/// The occupied squares at index `lo` and above, each paired with its piece,
/// in index order.
pub open spec fn spec_pieces_with_position(sq: Seq<Option<Piece>>, lo: int) -> Seq<(Square, Piece)>
    decreases 64 - lo,
{
    if lo < 0 || lo >= 64 {
        Seq::empty()
    } else {
        let rest = spec_pieces_with_position(sq, lo + 1);
        match sq[lo] {
            Some(p) => seq![(Square { idx: lo as u8 }, p)] + rest,
            None => rest,
        }
    }
}

/// The pieces standing on squares at index `lo` and above, in index order.
pub open spec fn spec_pieces(sq: Seq<Option<Piece>>, lo: int) -> Seq<Piece>
    decreases 64 - lo,
{
    if lo < 0 || lo >= 64 {
        Seq::empty()
    } else {
        let rest = spec_pieces(sq, lo + 1);
        match sq[lo] {
            Some(p) => seq![p] + rest,
            None => rest,
        }
    }
}

/// Round-trip law: for any well-formed board and any move whose origin
/// square holds a piece, making the move and then undoing it with the record
/// it returned restores the board exactly.
pub proof fn lemma_make_unmake(b: BoardModel, m: Move)
    requires
        b.wf(),
        m.wf(),
        b.at(m.from) is Some,
    ensures
        spec_unmake_board(spec_make_board(b, m), spec_make_record(b, m)) == b,
{
    let restored = spec_unmake_board(spec_make_board(b, m), spec_make_record(b, m));
    assert(restored.squares =~= b.squares);
    assert(restored =~= b);
}

/// A board: 64 optional-piece slots, the last move played, and the four
/// castling rights.
#[derive(Clone, PartialEq, Eq, Debug)]
pub struct Board {
    pub squares: Vec<Option<Piece>>,
    pub last_move: Option<Move>,
    pub rights: CastleRights,
}

impl View for Board {
    type V = BoardModel;

    open spec fn view(&self) -> BoardModel {
        BoardModel { squares: self.squares@, last_move: self.last_move, rights: self.rights }
    }
}

impl Board {
    /// The board is well-formed.
    pub open spec fn wf(self) -> bool {
        self@.wf()
    }

    /// Builds the empty board: no pieces, no last move, all four castling
    /// rights held.
    pub fn new() -> (r: Board)
        ensures
            r.wf(),
            r@.squares.len() == 64,
            forall|i: int| 0 <= i < 64 ==> r@.squares[i] is None,
            r@.last_move is None,
            r@.rights == CastleRights::all_spec(),
    {
        let mut squares: Vec<Option<Piece>> = Vec::new();
        let mut i: usize = 0;
        while i < 64
            invariant
                i <= 64,
                squares@.len() == i,
                forall|j: int| 0 <= j < i ==> squares@[j] is None,
            decreases 64 - i,
        {
            squares.push(None);
            i = i + 1;
        }
        Board { squares, last_move: None, rights: CastleRights::all() }
    }

    /// Puts `piece` on `square`, overwriting any occupant.
    pub fn place(&mut self, square: Square, piece: Piece)
        requires
            old(self).wf(),
            square.wf(),
        ensures
            final(self).wf(),
            final(self)@.squares == old(self)@.squares.update(square.idx as int, Some(piece)),
            final(self)@.last_move == old(self)@.last_move,
            final(self)@.rights == old(self)@.rights,
    {
        self.squares[square.idx as usize] = Some(piece);
    }

    /// Applies an externally supplied placement list to the board, putting
    /// each listed piece on its square in order.
    pub fn populate(&mut self, setup: &Vec<(Square, Piece)>)
        requires
            old(self).wf(),
            forall|i: int| 0 <= i < setup@.len() ==> (#[trigger] setup@[i]).0.wf(),
        ensures
            final(self).wf(),
            final(self)@.squares == spec_place_all(old(self)@.squares, setup@),
            final(self)@.last_move == old(self)@.last_move,
            final(self)@.rights == old(self)@.rights,
    {
        let n = setup.len();
        proof {
            assert(setup@.skip(0) =~= setup@);
        }
        let mut i: usize = 0;
        while i < n
            invariant
                self.wf(),
                i <= n,
                n == setup@.len(),
                forall|k: int| 0 <= k < setup@.len() ==> (#[trigger] setup@[k]).0.wf(),
                spec_place_all(self@.squares, setup@.skip(i as int)) == spec_place_all(
                    old(self)@.squares,
                    setup@,
                ),
                self@.last_move == old(self)@.last_move,
                self@.rights == old(self)@.rights,
            decreases n - i,
        {
            let (square, piece) = setup[i];
            proof {
                assert(setup@.skip(i as int).drop_first() =~= setup@.skip(i + 1));
            }
            self.place(square, piece);
            i = i + 1;
        }
        proof {
            assert(setup@.skip(n as int) =~= Seq::<(Square, Piece)>::empty());
        }
    }

    /// The occupant of `square`, if any.
    pub fn piece_at(&self, square: Square) -> (r: Option<Piece>)
        requires
            self.wf(),
            square.wf(),
        ensures
            r == self@.at(square),
    {
        self.squares[square.idx as usize]
    }

    /// Every occupied square paired with its piece, in square order.
    pub fn pieces_with_position(&self) -> (r: Vec<(Square, Piece)>)
        requires
            self.wf(),
        ensures
            r@ == spec_pieces_with_position(self@.squares, 0),
    {
        let mut r: Vec<(Square, Piece)> = Vec::new();
        let mut i: usize = 0;
        while i < 64
            invariant
                self.wf(),
                i <= 64,
                r@ + spec_pieces_with_position(self@.squares, i as int)
                    == spec_pieces_with_position(self@.squares, 0),
            decreases 64 - i,
        {
            let s = Square { idx: i as u8 };
            let ghost before = r@;
            match self.piece_at(s) {
                Some(p) => {
                    r.push((s, p));
                },
                None => {},
            }
            proof {
                assert(r@ + spec_pieces_with_position(self@.squares, i + 1) =~= before
                    + spec_pieces_with_position(self@.squares, i as int));
            }
            i = i + 1;
        }
        r
    }

    /// Every piece on the board, in square order.
    pub fn pieces(&self) -> (r: Vec<Piece>)
        requires
            self.wf(),
        ensures
            r@ == spec_pieces(self@.squares, 0),
    {
        let mut r: Vec<Piece> = Vec::new();
        let mut i: usize = 0;
        while i < 64
            invariant
                self.wf(),
                i <= 64,
                r@ + spec_pieces(self@.squares, i as int) == spec_pieces(self@.squares, 0),
            decreases 64 - i,
        {
            let s = Square { idx: i as u8 };
            let ghost before = r@;
            match self.piece_at(s) {
                Some(p) => {
                    r.push(p);
                },
                None => {},
            }
            proof {
                assert(r@ + spec_pieces(self@.squares, i + 1) =~= before + spec_pieces(
                    self@.squares,
                    i as int,
                ));
            }
            i = i + 1;
        }
        r
    }

    /// The last move played, if any.
    pub fn last_move(&self) -> (r: Option<Move>)
        ensures
            r == self@.last_move,
    {
        self.last_move
    }

    /// Overrides the recorded last move.
    pub fn set_last_move(&mut self, m: Option<Move>)
        requires
            old(self).wf(),
            m matches Some(mv) ==> mv.wf(),
        ensures
            final(self).wf(),
            final(self)@.squares == old(self)@.squares,
            final(self)@.last_move == m,
            final(self)@.rights == old(self)@.rights,
    {
        self.last_move = m;
    }

    /// Gives up the castling right of the given color and side.
    pub fn clear_castle_right(&mut self, color: Color, side: Side)
        requires
            old(self).wf(),
        ensures
            final(self).wf(),
            final(self)@.squares == old(self)@.squares,
            final(self)@.last_move == old(self)@.last_move,
            final(self)@.rights == old(self)@.rights.cleared_spec(color, side),
    {
        self.rights.clear(color, side);
    }

    /// Whether the given color still holds at least one castling right.
    pub fn has_castle_rights(&self, color: Color) -> (r: bool)
        ensures
            r == self@.rights.any_spec(color),
    {
        match color {
            Color::Black => self.rights.black_kingside || self.rights.black_queenside,
            Color::White => self.rights.white_kingside || self.rights.white_queenside,
        }
    }

    /// Makes `mov` on the board: clears the castling rights the move gives
    /// up, moves the piece from origin to destination (overwriting any
    /// occupant), records `mov` as the last move, and returns the undo
    /// record capturing the prior state.
    ///
    /// The origin square must hold a piece; calling this on an empty origin
    /// is a caller bug.
    pub fn make_move(&mut self, mov: Move) -> (r: MakeMoveModification)
        requires
            old(self).wf(),
            mov.wf(),
            old(self)@.at(mov.from) is Some,
        ensures
            final(self).wf(),
            final(self)@ == spec_make_board(old(self)@, mov),
            r == spec_make_record(old(self)@, mov),
            r.wf(),
            final(self)@.rights.only_cleared_from(old(self)@.rights),
    {
        let original_state = MakeMoveModification {
            made_move: mov,
            last_move: self.last_move,
            taken_piece: self.squares[mov.to.idx as usize],
            rights_before: self.rights,
        };

        let piece = self.squares[mov.from.idx as usize].unwrap();
        let color = piece.color();

        if piece.kind() == Kind::Rook {
            let (r1, r2) = match color {
                Color::Black => (Square { idx: 56 }, Square { idx: 63 }),
                Color::White => (Square { idx: 0 }, Square { idx: 7 }),
            };
            if mov.from() == r1 {
                self.rights.clear(color, Side::Queenside);
            } else if mov.from() == r2 {
                self.rights.clear(color, Side::Kingside);
            }
        } else if piece.kind() == Kind::King {
            self.rights.clear(color, Side::Queenside);
            self.rights.clear(color, Side::Kingside);
        }

        self.squares[mov.from.idx as usize] = None;
        self.squares[mov.to.idx as usize] = Some(piece);

        self.last_move = Some(mov);
        original_state
    }

    /// Undoes the move recorded in `mov`, restoring the exact board state
    /// from before the matching `make_move`.
    pub fn unmake_move(&mut self, mov: MakeMoveModification)
        requires
            old(self).wf(),
            mov.wf(),
        ensures
            final(self).wf(),
            final(self)@ == spec_unmake_board(old(self)@, mov),
    {
        self.last_move = mov.last_move;
        self.squares[mov.made_move.from.idx as usize] = self.squares[mov.made_move.to.idx as usize];
        self.squares[mov.made_move.to.idx as usize] = mov.taken_piece;
        self.rights = mov.rights_before;
    }
}

impl Default for Board {
    /// The default board is the empty board.
    fn default() -> (r: Board)
        ensures
            r.wf(),
            r@.squares.len() == 64,
            forall|i: int| 0 <= i < 64 ==> r@.squares[i] is None,
            r@.last_move is None,
            r@.rights == CastleRights::all_spec(),
    {
        Board::new()
    }
}

} // verus!
