//! Check detection.
//!
//! `king_in_check` locates a color's king (no king means not in check, by
//! convention) and probes for attackers by reusing the move generators as
//! attack-map queries: sliding moves cast from the king's square find rook,
//! bishop and queen attackers; knight moves cast from the king's square find
//! knight attackers; and the two squares diagonally ahead of the king find
//! pawn attackers.

use vstd::prelude::*;

use crate::board::{Board, BoardModel};
use crate::movegen::{spec_knight_moves, spec_sliding_moves};
use crate::moves::Move;
use crate::piece::{Color, Kind, Piece};
use crate::square::{Direction, Square};

verus! {

/// The square of the first king of `color` at index `lo` or above.
pub open spec fn spec_find_king_from(sq: Seq<Option<Piece>>, color: Color, lo: int) -> Option<
    Square,
>
    decreases 64 - lo,
{
    if lo < 0 || lo >= 64 {
        None
    } else if sq[lo] matches Some(p) && p.kind == Kind::King && p.color == color {
        Some(Square { idx: lo as u8 })
    } else {
        spec_find_king_from(sq, color, lo + 1)
    }
}

/// The square of `color`'s king: the lowest-index one, if several stand on
/// the board.
pub open spec fn spec_find_king(sq: Seq<Option<Piece>>, color: Color) -> Option<Square> {
    spec_find_king_from(sq, color, 0)
}

/// A sliding probe of the given kind cast from the king's square hits: some
/// destination holds an opposing piece whose kind matches the probe kind or
/// is a queen.
pub open spec fn spec_sliding_check(
    sq: Seq<Option<Piece>>,
    color: Color,
    ksq: Square,
    kind: Kind,
) -> bool {
    exists|i: int|
        0 <= i < spec_sliding_moves(sq, color, ksq, kind).len() && (sq[(#[trigger] spec_sliding_moves(
            sq,
            color,
            ksq,
            kind,
        )[i]).to.idx as int] matches Some(p) && p.color == color.other_spec() && (p.kind
            == Kind::Queen || p.kind == kind))
}

/// A knight probe cast from the king's square hits: some destination holds
/// an opposing knight.
pub open spec fn spec_knight_check(sq: Seq<Option<Piece>>, color: Color, ksq: Square) -> bool {
    exists|i: int|
        0 <= i < spec_knight_moves(sq, color, ksq).len() && (sq[(#[trigger] spec_knight_moves(
            sq,
            color,
            ksq,
        )[i]).to.idx as int] matches Some(p) && p.color == color.other_spec() && p.kind
            == Kind::Knight)
}

/// The two directions from which an opposing pawn could capture onto the
/// king's square, seen from the attacked color's side.
pub open spec fn pawn_check_dirs(color: Color) -> (Direction, Direction) {
    match color {
        Color::Black => (Direction::DownLeft, Direction::DownRight),
        Color::White => (Direction::UpLeft, Direction::UpRight),
    }
}

/// An opposing pawn stands one step from the king's square along `d`.
pub open spec fn spec_pawn_check_dir(
    sq: Seq<Option<Piece>>,
    color: Color,
    ksq: Square,
    d: Direction,
) -> bool {
    ksq.step_in_bounds(d) && (sq[ksq.stepped(d).idx as int] matches Some(p) && p.color
        == color.other_spec() && p.kind == Kind::Pawn)
}

/// An opposing pawn attacks the king's square from either diagonal.
pub open spec fn spec_pawn_check(sq: Seq<Option<Piece>>, color: Color, ksq: Square) -> bool {
    spec_pawn_check_dir(sq, color, ksq, pawn_check_dirs(color).0) || spec_pawn_check_dir(
        sq,
        color,
        ksq,
        pawn_check_dirs(color).1,
    )
}

/// The king of `color` is attacked: a sliding, knight or pawn probe cast
/// from its square hits. A color without a king is not in check.
pub open spec fn spec_king_in_check(b: BoardModel, color: Color) -> bool {
    match spec_find_king(b.squares, color) {
        None => false,
        Some(ksq) => spec_sliding_check(b.squares, color, ksq, Kind::Rook) || spec_sliding_check(
            b.squares,
            color,
            ksq,
            Kind::Bishop,
        ) || spec_knight_check(b.squares, color, ksq) || spec_pawn_check(b.squares, color, ksq),
    }
}

impl Board {
    /// Finds `color`'s king, scanning the squares in index order.
    fn find_king(&self, color: Color) -> (r: Option<Square>)
        requires
            self.wf(),
        ensures
            r == spec_find_king(self@.squares, color),
            r matches Some(s) ==> s.wf(),
    {
        let mut i: usize = 0;
        while i < 64
            invariant
                self.wf(),
                i <= 64,
                spec_find_king(self@.squares, color) == spec_find_king_from(
                    self@.squares,
                    color,
                    i as int,
                ),
            decreases 64 - i,
        {
            let s = Square { idx: i as u8 };
            match self.piece_at(s) {
                Some(p) => {
                    if p.kind() == Kind::King && p.color() == color {
                        return Some(s);
                    }
                },
                None => {},
            }
            i = i + 1;
        }
        None
    }

    /// Casts sliding moves of `kind` from the king's square and scans the
    /// destinations for an opposing piece of that kind or a queen.
    fn sliding_check_probe(&self, color: Color, ksq: Square, kind: Kind) -> (r: bool)
        requires
            self.wf(),
            ksq.wf(),
            kind == Kind::Rook || kind == Kind::Bishop,
        ensures
            r == spec_sliding_check(self@.squares, color, ksq, kind),
    {
        let mut sliding_moves: Vec<Move> = Vec::new();
        self.generate_moves_sliding(&mut sliding_moves, color, ksq, kind);
        let ghost sm = spec_sliding_moves(self@.squares, color, ksq, kind);
        let n = sliding_moves.len();
        let mut i: usize = 0;
        while i < n
            invariant
                self.wf(),
                i <= n,
                n == sliding_moves@.len(),
                sliding_moves@ == sm,
                sm == spec_sliding_moves(self@.squares, color, ksq, kind),
                forall|k: int| 0 <= k < n ==> (#[trigger] sliding_moves@[k]).wf(),
                forall|j: int|
                    0 <= j < i ==> !(self@.squares[(#[trigger] sm[j]).to.idx as int] matches Some(p)
                        && p.color == color.other_spec() && (p.kind == Kind::Queen || p.kind
                        == kind)),
            decreases n - i,
        {
            let m = sliding_moves[i];
            match self.piece_at(m.to()) {
                Some(p) => {
                    if p.color() == color.other() && (p.kind() == Kind::Queen || p.kind() == kind) {
                        return true;
                    }
                },
                None => {},
            }
            i = i + 1;
        }
        false
    }

    /// Whether an opposing rook, bishop or queen attacks the king square.
    fn is_king_in_check_by_sliding(&self, color: Color, square: Square) -> (r: bool)
        requires
            self.wf(),
            square.wf(),
        ensures
            r == (spec_sliding_check(self@.squares, color, square, Kind::Rook)
                || spec_sliding_check(self@.squares, color, square, Kind::Bishop)),
    {
        if self.sliding_check_probe(color, square, Kind::Rook) {
            return true;
        }
        self.sliding_check_probe(color, square, Kind::Bishop)
    }

    /// Whether an opposing knight attacks the king square.
    fn is_king_in_check_by_knights(&self, color: Color, square: Square) -> (r: bool)
        requires
            self.wf(),
            square.wf(),
        ensures
            r == spec_knight_check(self@.squares, color, square),
    {
        let mut knight_moves: Vec<Move> = Vec::new();
        self.generate_moves_knight(&mut knight_moves, color, square);
        let ghost km = spec_knight_moves(self@.squares, color, square);
        let n = knight_moves.len();
        let mut i: usize = 0;
        while i < n
            invariant
                self.wf(),
                i <= n,
                n == knight_moves@.len(),
                knight_moves@ == km,
                km == spec_knight_moves(self@.squares, color, square),
                forall|k: int| 0 <= k < n ==> (#[trigger] knight_moves@[k]).wf(),
                forall|j: int|
                    0 <= j < i ==> !(self@.squares[(#[trigger] km[j]).to.idx as int] matches Some(p)
                        && p.color == color.other_spec() && p.kind == Kind::Knight),
            decreases n - i,
        {
            let m = knight_moves[i];
            match self.piece_at(m.to()) {
                Some(p) => {
                    if p.color() == color.other() && p.kind() == Kind::Knight {
                        return true;
                    }
                },
                None => {},
            }
            i = i + 1;
        }
        false
    }

    /// Whether an opposing pawn attacks the king square from either of the
    /// two squares diagonally ahead of it.
    fn is_king_in_check_by_pawns(&self, color: Color, square: Square) -> (r: bool)
        requires
            self.wf(),
            square.wf(),
        ensures
            r == spec_pawn_check(self@.squares, color, square),
    {
        let (l, r) = match color {
            Color::Black => (Direction::DownLeft, Direction::DownRight),
            Color::White => (Direction::UpLeft, Direction::UpRight),
        };
        if self.pawn_check_along(color, square, l) {
            return true;
        }
        self.pawn_check_along(color, square, r)
    }

    /// Whether an opposing pawn stands one step from the king square along
    /// `d`.
    fn pawn_check_along(&self, color: Color, square: Square, d: Direction) -> (r: bool)
        requires
            self.wf(),
            square.wf(),
        ensures
            r == spec_pawn_check_dir(self@.squares, color, square, d),
    {
        match square.step(d) {
            None => false,
            Some(t) => {
                match self.piece_at(t) {
                    Some(p) => p.color() == color.other() && p.kind() == Kind::Pawn,
                    None => false,
                }
            },
        }
    }

    /// Whether `color`'s king is attacked: the sliding, knight and pawn
    /// probes are tried in turn from the king's square. A board without that
    /// color's king reports no check.
    pub fn king_in_check(&self, color: Color) -> (r: bool)
        requires
            self.wf(),
        ensures
            r == spec_king_in_check(self@, color),
    {
        let square = match self.find_king(color) {
            None => {
                return false;
            },
            Some(v) => v,
        };

        if self.is_king_in_check_by_sliding(color, square) {
            return true;
        }
        if self.is_king_in_check_by_knights(color, square) {
            return true;
        }
        self.is_king_in_check_by_pawns(color, square)
    }
}

} // verus!
