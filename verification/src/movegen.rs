//! Pseudo-legal move generation, per piece kind.
//!
//! Each executable generator appends to a caller-supplied vector and is
//! specified against a spec-level sequence builder that states exactly which
//! moves come out and in which order. Generation is pseudo-legal: it never
//! consults the mover's own king safety; that filter is applied by the
//! caller (see the perft harness).

use vstd::prelude::*;

use crate::board::{Board, BoardModel};
use crate::moves::{
    lemma_flag_or_in_tag_space, Flags, Move, CAPTURE, CASTLE_KING, CASTLE_QUEEN, EP_CAPTURE, PAWN_SPRINT, PROMOTION_BISHOP,
    PROMOTION_KNIGHT, PROMOTION_QUEEN, PROMOTION_ROOK, QUIET,
};
use crate::piece::{Color, Kind, Piece};
use crate::square::{Direction, Square};

verus! {

/// The 8 queen-like directions, in generation order.
pub open spec fn queen_directions() -> Seq<Direction> {
    seq![
        Direction::Up,
        Direction::Down,
        Direction::Left,
        Direction::Right,
        Direction::UpLeft,
        Direction::UpRight,
        Direction::DownLeft,
        Direction::DownRight,
    ]
}

/// The 8 knight directions, in generation order.
pub open spec fn knight_directions() -> Seq<Direction> {
    seq![
        Direction::UpUpLeft,
        Direction::UpUpRight,
        Direction::LeftLeftUp,
        Direction::LeftLeftDown,
        Direction::RightRightUp,
        Direction::RightRightDown,
        Direction::DownDownLeft,
        Direction::DownDownRight,
    ]
}

/// The ray directions a sliding piece of the given kind walks: rooks the 4
/// orthogonal, bishops the 4 diagonal, queens all 8. Other kinds slide along
/// no ray.
pub open spec fn sliding_directions(kind: Kind) -> Seq<Direction> {
    match kind {
        Kind::Rook => queen_directions().subrange(0, 4),
        Kind::Bishop => queen_directions().subrange(4, 8),
        Kind::Queen => queen_directions(),
        _ => Seq::empty(),
    }
}

/// The moves of one walk along direction `d`, starting one step beyond
/// `cur`: an empty square yields a quiet move and the walk continues; an
/// occupied square ends the walk, yielding a capture exactly when the
/// occupant opposes `color`.
pub open spec fn spec_ray_moves(
    sq: Seq<Option<Piece>>,
    color: Color,
    origin: Square,
    cur: Square,
    d: Direction,
) -> Seq<Move>
    decreases (if d.offset() > 0 { 255 - cur.idx } else { cur.idx as int }),
{
    if !cur.step_in_bounds(d) {
        Seq::empty()
    } else {
        let t = cur.stepped(d);
        match sq[t.idx as int] {
            None => seq![Move { from: origin, to: t, flags: Flags { bits: QUIET } }]
                + spec_ray_moves(sq, color, origin, t, d),
            Some(p) => {
                if p.color == color.other_spec() {
                    seq![Move { from: origin, to: t, flags: Flags { bits: CAPTURE } }]
                } else {
                    Seq::empty()
                }
            },
        }
    }
}

/// The moves of the walks along each direction of `dirs`, in order.
pub open spec fn spec_rays_moves(
    sq: Seq<Option<Piece>>,
    color: Color,
    origin: Square,
    dirs: Seq<Direction>,
) -> Seq<Move>
    decreases dirs.len(),
{
    if dirs.len() == 0 {
        Seq::empty()
    } else {
        spec_ray_moves(sq, color, origin, origin, dirs[0])
            + spec_rays_moves(sq, color, origin, dirs.drop_first())
    }
}

/// All moves of a sliding piece of the given kind standing on `origin`.
pub open spec fn spec_sliding_moves(
    sq: Seq<Option<Piece>>,
    color: Color,
    origin: Square,
    kind: Kind,
) -> Seq<Move> {
    spec_rays_moves(sq, color, origin, sliding_directions(kind))
}

/// The moves of a single step from `origin` in direction `d`: nothing when
/// the step leaves the board or the destination holds a piece of `color`'s
/// own side, a quiet move onto an empty square, a capture onto an opposing
/// piece.
pub open spec fn spec_step_moves(
    sq: Seq<Option<Piece>>,
    color: Color,
    origin: Square,
    d: Direction,
) -> Seq<Move> {
    if !origin.step_in_bounds(d) {
        Seq::empty()
    } else {
        let t = origin.stepped(d);
        match sq[t.idx as int] {
            None => seq![Move { from: origin, to: t, flags: Flags { bits: QUIET } }],
            Some(p) => {
                if p.color == color.other_spec() {
                    seq![Move { from: origin, to: t, flags: Flags { bits: CAPTURE } }]
                } else {
                    Seq::empty()
                }
            },
        }
    }
}

/// The single-step moves from `origin` along each direction of `dirs`, in
/// order.
pub open spec fn spec_leaps_moves(
    sq: Seq<Option<Piece>>,
    color: Color,
    origin: Square,
    dirs: Seq<Direction>,
) -> Seq<Move>
    decreases dirs.len(),
{
    if dirs.len() == 0 {
        Seq::empty()
    } else {
        spec_step_moves(sq, color, origin, dirs[0])
            + spec_leaps_moves(sq, color, origin, dirs.drop_first())
    }
}

/// All moves of a knight standing on `origin`.
pub open spec fn spec_knight_moves(sq: Seq<Option<Piece>>, color: Color, origin: Square) -> Seq<
    Move,
> {
    spec_leaps_moves(sq, color, origin, knight_directions())
}

/// The castling candidates of `color`'s king standing on `origin`: present
/// only when the king stands on its home square and the color still holds
/// any castling right; each side additionally needs the same-color rook on
/// that side's home-rank corner and all squares strictly between king and
/// rook empty. The generated move places the king two squares toward the
/// rook.
pub open spec fn spec_castle_moves(b: BoardModel, color: Color, origin: Square) -> Seq<Move> {
    if origin == color.king_square_spec() && b.rights.any_spec(color) {
        let kingside = {
            let corner = Square { idx: ((origin.rank_spec() - 1) * 8 + 7) as u8 };
            let rook_there = b.squares[corner.idx as int] matches Some(p) && p.kind == Kind::Rook
                && p.color == color;
            let free = b.squares[origin.idx + 1] is None && b.squares[origin.idx + 2] is None;
            if rook_there && free {
                seq![
                    Move {
                        from: origin,
                        to: Square { idx: (origin.idx + 2) as u8 },
                        flags: Flags { bits: CASTLE_KING },
                    },
                ]
            } else {
                Seq::empty()
            }
        };
        let queenside = {
            let corner = Square { idx: ((origin.rank_spec() - 1) * 8) as u8 };
            let rook_there = b.squares[corner.idx as int] matches Some(p) && p.kind == Kind::Rook
                && p.color == color;
            let free = b.squares[origin.idx - 1] is None && b.squares[origin.idx - 2] is None
                && b.squares[origin.idx - 3] is None;
            if rook_there && free {
                seq![
                    Move {
                        from: origin,
                        to: Square { idx: (origin.idx - 2) as u8 },
                        flags: Flags { bits: CASTLE_QUEEN },
                    },
                ]
            } else {
                Seq::empty()
            }
        };
        kingside + queenside
    } else {
        Seq::empty()
    }
}

/// All moves of `color`'s king standing on `origin`: the 8 adjacent steps,
/// then the castling candidates.
pub open spec fn spec_king_moves(b: BoardModel, color: Color, origin: Square) -> Seq<Move> {
    spec_leaps_moves(b.squares, color, origin, queen_directions()) + spec_castle_moves(
        b,
        color,
        origin,
    )
}

impl Board {
    /// Whether one step from `square` in `direction` stays on the board.
    pub fn within_board_bounds(square: Square, direction: Direction) -> (r: bool)
        requires
            square.wf(),
        ensures
            r == square.step_in_bounds(direction),
    {
        square.step(direction).is_some()
    }

    /// Appends all moves of a sliding piece of `color` and `kind` standing
    /// on `square`: each relevant ray is walked one step at a time, yielding
    /// quiet moves over empty squares and stopping at the first occupant,
    /// which is captured exactly when it opposes `color`.
    pub fn generate_moves_sliding(
        &self,
        result: &mut Vec<Move>,
        color: Color,
        square: Square,
        kind: Kind,
    )
        requires
            self.wf(),
            square.wf(),
            kind == Kind::Bishop || kind == Kind::Rook || kind == Kind::Queen,
        ensures
            final(result)@ == old(result)@ + spec_sliding_moves(self@.squares, color, square, kind),
            forall|i: int|
                old(result)@.len() <= i < final(result)@.len() ==> (#[trigger] final(result)@[i]).wf()
                    && final(result)@[i].from == square,
    {
        let ghost sq = self@.squares;
        let ghost dirs = sliding_directions(kind);
        let (lo, hi): (usize, usize) = match kind {
            Kind::Bishop => (4, 8),
            Kind::Rook => (0, 4),
            Kind::Queen => (0, 8),
            _ => {
                proof {
                    assert(false);
                }
                (0, 0)
            },
        };
        proof {
            assert(dirs =~= queen_directions().subrange(lo as int, hi as int));
        }
        let mut i: usize = lo;
        while i < hi
            invariant
                self.wf(),
                square.wf(),
                sq == self@.squares,
                lo <= i <= hi <= 8,
                dirs == queen_directions().subrange(lo as int, hi as int),
                result@ + spec_rays_moves(sq, color, square, queen_directions().subrange(i as int, hi as int))
                    == old(result)@ + spec_rays_moves(sq, color, square, dirs),
                forall|k: int|
                    old(result)@.len() <= k < result@.len() ==> (#[trigger] result@[k]).wf()
                        && result@[k].from == square,
            decreases hi - i,
        {
            let d = queen_direction(i);
            let ghost rest = queen_directions().subrange(i as int, hi as int);
            proof {
                assert(rest[0] == d);
                assert(rest.drop_first() =~= queen_directions().subrange(i + 1, hi as int));
            }
            self.walk_ray(result, color, square, d);
            i = i + 1;
        }
        proof {
            assert(queen_directions().subrange(hi as int, hi as int) =~= Seq::<Direction>::empty());
            assert(result@ =~= old(result)@ + spec_sliding_moves(self@.squares, color, square, kind));
        }
    }

    /// Walks one ray from `square` in direction `d`, appending its moves.
    fn walk_ray(&self, result: &mut Vec<Move>, color: Color, square: Square, d: Direction)
        requires
            self.wf(),
            square.wf(),
        ensures
            final(result)@ == old(result)@ + spec_ray_moves(self@.squares, color, square, square, d),
            forall|i: int|
                old(result)@.len() <= i < final(result)@.len() ==> (#[trigger] final(result)@[i]).wf()
                    && final(result)@[i].from == square,
    {
        let ghost sq = self@.squares;
        let mut cur = square;
        loop
            invariant_except_break
                self.wf(),
                square.wf(),
                cur.wf(),
                sq == self@.squares,
                result@ + spec_ray_moves(sq, color, square, cur, d) == old(result)@
                    + spec_ray_moves(sq, color, square, square, d),
                forall|i: int|
                    old(result)@.len() <= i < result@.len() ==> (#[trigger] result@[i]).wf()
                        && result@[i].from == square,
            ensures
                result@ == old(result)@ + spec_ray_moves(sq, color, square, square, d),
                forall|i: int|
                    old(result)@.len() <= i < result@.len() ==> (#[trigger] result@[i]).wf()
                        && result@[i].from == square,
            decreases (if d.offset() > 0 {
                255 - cur.idx as int
            } else {
                cur.idx as int
            }),
        {
            match cur.step(d) {
                None => {
                    break ;
                },
                Some(target) => {
                    match self.piece_at(target) {
                        None => {
                            result.push(Move::new(square, target, Flags::new(QUIET)));
                            cur = target;
                        },
                        Some(p) => {
                            if p.color() == color.other() {
                                result.push(Move::new(square, target, Flags::new(CAPTURE)));
                            }
                            break ;
                        },
                    }
                },
            }
        }
    }

    /// Appends all knight moves of `color` from `square`: each of the eight
    /// fixed leaps that stays on the board yields a quiet move onto an empty
    /// square or a capture onto an opposing piece.
    pub fn generate_moves_knight(&self, result: &mut Vec<Move>, color: Color, square: Square)
        requires
            self.wf(),
            square.wf(),
        ensures
            final(result)@ == old(result)@ + spec_knight_moves(self@.squares, color, square),
            forall|i: int|
                old(result)@.len() <= i < final(result)@.len() ==> (#[trigger] final(result)@[i]).wf()
                    && final(result)@[i].from == square,
    {
        self.generate_moves_leaps(result, color, square, true);
    }

    /// Appends the single-step moves along the knight or queen direction
    /// table.
    fn generate_moves_leaps(
        &self,
        result: &mut Vec<Move>,
        color: Color,
        square: Square,
        knight: bool,
    )
        requires
            self.wf(),
            square.wf(),
        ensures
            final(result)@ == old(result)@ + spec_leaps_moves(
                self@.squares,
                color,
                square,
                if knight {
                    knight_directions()
                } else {
                    queen_directions()
                },
            ),
            forall|i: int|
                old(result)@.len() <= i < final(result)@.len() ==> (#[trigger] final(result)@[i]).wf()
                    && final(result)@[i].from == square,
    {
        let ghost sq = self@.squares;
        let ghost dirs = if knight {
            knight_directions()
        } else {
            queen_directions()
        };
        proof {
            assert(dirs.subrange(0, 8) =~= dirs);
        }
        let mut i: usize = 0;
        while i < 8
            invariant
                self.wf(),
                square.wf(),
                sq == self@.squares,
                i <= 8,
                dirs == if knight {
                    knight_directions()
                } else {
                    queen_directions()
                },
                dirs.len() == 8,
                result@ + spec_leaps_moves(sq, color, square, dirs.subrange(i as int, 8))
                    == old(result)@ + spec_leaps_moves(sq, color, square, dirs),
                forall|k: int|
                    old(result)@.len() <= k < result@.len() ==> (#[trigger] result@[k]).wf()
                        && result@[k].from == square,
            decreases 8 - i,
        {
            let d = if knight {
                knight_direction(i)
            } else {
                queen_direction(i)
            };
            let ghost rest = dirs.subrange(i as int, 8);
            proof {
                assert(dirs =~= dirs.subrange(0, 8));
                assert(rest[0] == d);
                assert(rest.drop_first() =~= dirs.subrange(i + 1, 8));
            }
            match square.step(d) {
                None => {},
                Some(target) => {
                    match self.piece_at(target) {
                        None => {
                            result.push(Move::new(square, target, Flags::new(QUIET)));
                        },
                        Some(p) => {
                            if p.color() == color.other() {
                                result.push(Move::new(square, target, Flags::new(CAPTURE)));
                            }
                        },
                    }
                },
            }
            i = i + 1;
        }
        proof {
            assert(dirs.subrange(8, 8) =~= Seq::<Direction>::empty());
            assert(result@ =~= old(result)@ + spec_leaps_moves(sq, color, square, dirs));
        }
    }

    /// Appends all bishop moves of `color` from `square`.
    pub fn generate_moves_bishop(&self, result: &mut Vec<Move>, color: Color, square: Square)
        requires
            self.wf(),
            square.wf(),
        ensures
            final(result)@ == old(result)@ + spec_sliding_moves(
                self@.squares,
                color,
                square,
                Kind::Bishop,
            ),
            forall|i: int|
                old(result)@.len() <= i < final(result)@.len() ==> (#[trigger] final(result)@[i]).wf()
                    && final(result)@[i].from == square,
    {
        self.generate_moves_sliding(result, color, square, Kind::Bishop)
    }

    /// Appends all rook moves of `color` from `square`.
    pub fn generate_moves_rook(&self, result: &mut Vec<Move>, color: Color, square: Square)
        requires
            self.wf(),
            square.wf(),
        ensures
            final(result)@ == old(result)@ + spec_sliding_moves(self@.squares, color, square, Kind::Rook),
            forall|i: int|
                old(result)@.len() <= i < final(result)@.len() ==> (#[trigger] final(result)@[i]).wf()
                    && final(result)@[i].from == square,
    {
        self.generate_moves_sliding(result, color, square, Kind::Rook)
    }

    /// Appends all queen moves of `color` from `square`.
    pub fn generate_moves_queen(&self, result: &mut Vec<Move>, color: Color, square: Square)
        requires
            self.wf(),
            square.wf(),
        ensures
            final(result)@ == old(result)@ + spec_sliding_moves(self@.squares, color, square, Kind::Queen),
            forall|i: int|
                old(result)@.len() <= i < final(result)@.len() ==> (#[trigger] final(result)@[i]).wf()
                    && final(result)@[i].from == square,
    {
        self.generate_moves_sliding(result, color, square, Kind::Queen)
    }

    /// Appends all king moves of `color` from `square`: the 8 adjacent
    /// steps, then the castling candidates. A castle candidate needs the
    /// king on its home square, any castling right still held by `color`,
    /// the same-color rook on that side's corner, and all squares strictly
    /// between king and rook empty; whether any of the king's squares are
    /// attacked is deliberately not checked here.
    pub fn generate_moves_king(&self, result: &mut Vec<Move>, color: Color, square: Square)
        requires
            self.wf(),
            square.wf(),
        ensures
            final(result)@ == old(result)@ + spec_king_moves(self@, color, square),
            forall|i: int|
                old(result)@.len() <= i < final(result)@.len()
                    ==> (#[trigger] final(result)@[i]).wf()
                    && final(result)@[i].from == square,
    {
        self.generate_moves_leaps(result, color, square, false);
        if color.king_square() == square && self.has_castle_rights(color) {
            let base_row = square.rank();

            let kingside_corner = Square::from_coordinates(base_row, 8);
            let is_kingside_rook_present = match self.piece_at(kingside_corner) {
                Some(p) => p.kind() == Kind::Rook && p.color() == color,
                None => false,
            };
            let k1 = square.step(Direction::Right).unwrap();
            let k2 = k1.step(Direction::Right).unwrap();
            let is_kingside_free = self.piece_at(k1).is_none() && self.piece_at(k2).is_none();
            if is_kingside_rook_present && is_kingside_free {
                result.push(Move::new(square, k2, Flags::new(CASTLE_KING)));
            }

            let queenside_corner = Square::from_coordinates(base_row, 1);
            let is_queenside_rook_present = match self.piece_at(queenside_corner) {
                Some(p) => p.kind() == Kind::Rook && p.color() == color,
                None => false,
            };
            let q1 = square.step(Direction::Left).unwrap();
            let q2 = q1.step(Direction::Left).unwrap();
            let q3 = q2.step(Direction::Left).unwrap();
            let is_queenside_free = self.piece_at(q1).is_none() && self.piece_at(q2).is_none()
                && self.piece_at(q3).is_none();
            if is_queenside_rook_present && is_queenside_free {
                result.push(Move::new(square, q2, Flags::new(CASTLE_QUEEN)));
            }
        }
        proof {
            assert(result@ =~= old(result)@ + spec_king_moves(self@, color, square));
        }
    }

    /// Appends all pawn moves of `color` from `square`: the single push
    /// (four promotion moves from the promotion-eligible rank), the double
    /// push from the home rank when both squares ahead are empty, the two
    /// diagonal captures, and the en-passant capture when the board's last
    /// move was an adjacent enemy double push.
    #[verifier::rlimit(50)]
    pub fn generate_moves_pawn(&self, result: &mut Vec<Move>, color: Color, square: Square)
        requires
            self.wf(),
            square.wf(),
        ensures
            final(result)@ == old(result)@ + spec_pawn_moves(self@, color, square),
            forall|i: int|
                old(result)@.len() <= i < final(result)@.len()
                    ==> (#[trigger] final(result)@[i]).wf()
                    && final(result)@[i].from == square,
    {
        let rank = square.rank();
        if rank == 1 || rank == 8 {
            return ;
        }

        let (move_dir, home_rank, promotion_possible_rank): (Direction, u8, u8) = match color {
            Color::Black => (Direction::Down, 7, 2),
            Color::White => (Direction::Up, 2, 7),
        };

        // forward pushes: single push, promotions, double push
        let fwd = square.step(move_dir).unwrap();
        if self.piece_at(fwd).is_none() {
            if rank == promotion_possible_rank {
                result.push(Move::new(square, fwd, Flags::new(PROMOTION_BISHOP)));
                result.push(Move::new(square, fwd, Flags::new(PROMOTION_KNIGHT)));
                result.push(Move::new(square, fwd, Flags::new(PROMOTION_QUEEN)));
                result.push(Move::new(square, fwd, Flags::new(PROMOTION_ROOK)));
            } else {
                result.push(Move::new(square, fwd, Flags::new(QUIET)));
            }

            // double push, but only if the single push is also possible
            if rank == home_rank {
                let fwd2 = fwd.step(move_dir).unwrap();
                if self.piece_at(fwd2).is_none() {
                    result.push(Move::new(square, fwd2, Flags::new(PAWN_SPRINT)));
                }
            }
        }
        proof {
            assert(result@ =~= old(result)@ + spec_pawn_push_moves(self@, color, square));
        }

        // diagonal captures
        let (capture_left, capture_right): (Direction, Direction) = match color {
            Color::Black => (Direction::DownLeft, Direction::DownRight),
            Color::White => (Direction::UpLeft, Direction::UpRight),
        };
        self.push_pawn_captures(result, color, square, capture_left, promotion_possible_rank);
        self.push_pawn_captures(result, color, square, capture_right, promotion_possible_rank);
        proof {
            assert(result@ =~= old(result)@ + spec_pawn_push_moves(self@, color, square)
                + spec_pawn_capture_moves(self@, color, square, capture_left)
                + spec_pawn_capture_moves(self@, color, square, capture_right));
        }

        // en passant
        let ep_possible = match &self.last_move {
            None => false,
            Some(mov) => mov.is_pawn_sprint(),
        };
        if ep_possible {
            let lm = self.last_move().unwrap();
            let sprint_col = lm.from().file();
            let file = square.file();
            if file == sprint_col - 1 || file == sprint_col + 1 {
                let ep_base_row: u8 = match color {
                    Color::Black => 4,
                    Color::White => 5,
                };
                if rank == ep_base_row {
                    let ep_dest_row: u8 = match color {
                        Color::Black => 3,
                        Color::White => 6,
                    };
                    let ep_move = Move::new(
                        square,
                        Square::from_coordinates(ep_dest_row, sprint_col),
                        Flags::new(EP_CAPTURE),
                    );
                    result.push(ep_move);
                }
            }
        }
        proof {
            assert(result@ =~= old(result)@ + spec_pawn_moves(self@, color, square));
        }
    }

    /// Appends the diagonal pawn captures of `color` from `square` toward
    /// `d`.
    fn push_pawn_captures(
        &self,
        result: &mut Vec<Move>,
        color: Color,
        square: Square,
        d: Direction,
        promotion_possible_rank: u8,
    )
        requires
            self.wf(),
            square.wf(),
            promotion_possible_rank == pawn_promotion_rank(color),
        ensures
            final(result)@ == old(result)@ + spec_pawn_capture_moves(self@, color, square, d),
            forall|i: int|
                old(result)@.len() <= i < final(result)@.len()
                    ==> (#[trigger] final(result)@[i]).wf()
                    && final(result)@[i].from == square,
    {
        match square.step(d) {
            None => {},
            Some(target) => {
                match self.piece_at(target) {
                    None => {},
                    Some(p) => {
                        if p.color() == color.other() {
                            if square.rank() == promotion_possible_rank {
                                proof {
                                    lemma_flag_or_in_tag_space(CAPTURE, PROMOTION_BISHOP);
                                    lemma_flag_or_in_tag_space(CAPTURE, PROMOTION_KNIGHT);
                                    lemma_flag_or_in_tag_space(CAPTURE, PROMOTION_QUEEN);
                                    lemma_flag_or_in_tag_space(CAPTURE, PROMOTION_ROOK);
                                }
                                result.push(
                                    Move::new(
                                        square,
                                        target,
                                        Flags::new(CAPTURE | PROMOTION_BISHOP),
                                    ),
                                );
                                result.push(
                                    Move::new(
                                        square,
                                        target,
                                        Flags::new(CAPTURE | PROMOTION_KNIGHT),
                                    ),
                                );
                                result.push(
                                    Move::new(square, target, Flags::new(CAPTURE | PROMOTION_QUEEN)),
                                );
                                result.push(
                                    Move::new(square, target, Flags::new(CAPTURE | PROMOTION_ROOK)),
                                );
                            } else {
                                result.push(Move::new(square, target, Flags::new(CAPTURE)));
                            }
                        }
                    },
                }
            },
        }
        proof {
            assert(result@ =~= old(result)@ + spec_pawn_capture_moves(self@, color, square, d));
        }
    }
    /// Produces all pseudo-legal moves of `color`: every piece of that color
    /// on the board, visited in square order, contributes its moves. The
    /// board itself is left unchanged.
    pub fn generate_moves(&mut self, color: Color) -> (moves: Vec<Move>)
        requires
            old(self).wf(),
        ensures
            final(self)@ == old(self)@,
            final(self).wf(),
            moves@ == spec_generate_moves(old(self)@, color),
            forall|i: int|
                0 <= i < moves@.len() ==> move_from_own_piece(
                    old(self)@,
                    color,
                    #[trigger] moves@[i],
                ),
    {
        let mut moves: Vec<Move> = Vec::new();
        let mut i: usize = 0;
        while i < 64
            invariant
                self.wf(),
                self@ == old(self)@,
                i <= 64,
                moves@ + spec_moves_from(self@, color, i as int) == spec_generate_moves(
                    self@,
                    color,
                ),
                forall|k: int|
                    0 <= k < moves@.len() ==> move_from_own_piece(
                        self@,
                        color,
                        #[trigger] moves@[k],
                    ),
            decreases 64 - i,
        {
            let s = Square { idx: i as u8 };
            let ghost moves_before = moves@;
            match self.piece_at(s) {
                Some(p) => {
                    if p.color() == color {
                        match p.kind() {
                            Kind::Pawn => self.generate_moves_pawn(&mut moves, color, s),
                            Kind::King => self.generate_moves_king(&mut moves, color, s),
                            Kind::Knight => self.generate_moves_knight(&mut moves, color, s),
                            Kind::Bishop => self.generate_moves_bishop(&mut moves, color, s),
                            Kind::Rook => self.generate_moves_rook(&mut moves, color, s),
                            Kind::Queen => self.generate_moves_queen(&mut moves, color, s),
                        }
                    }
                },
                None => {},
            }
            proof {
                assert(moves@ + spec_moves_from(self@, color, i + 1) =~= moves_before
                    + spec_moves_from(self@, color, i as int));
            }
            i = i + 1;
        }
        moves
    }
}


/// The `i`-th queen-like direction.
fn queen_direction(i: usize) -> (d: Direction)
    requires
        i < 8,
    ensures
        d == queen_directions()[i as int],
{
    match i {
        0 => Direction::Up,
        1 => Direction::Down,
        2 => Direction::Left,
        3 => Direction::Right,
        4 => Direction::UpLeft,
        5 => Direction::UpRight,
        6 => Direction::DownLeft,
        _ => Direction::DownRight,
    }
}

/// The `i`-th knight direction.
fn knight_direction(i: usize) -> (d: Direction)
    requires
        i < 8,
    ensures
        d == knight_directions()[i as int],
{
    match i {
        0 => Direction::UpUpLeft,
        1 => Direction::UpUpRight,
        2 => Direction::LeftLeftUp,
        3 => Direction::LeftLeftDown,
        4 => Direction::RightRightUp,
        5 => Direction::RightRightDown,
        6 => Direction::DownDownLeft,
        _ => Direction::DownDownRight,
    }
}

/// The direction a pawn of the given color advances.
pub open spec fn pawn_move_dir(color: Color) -> Direction {
    match color {
        Color::Black => Direction::Down,
        Color::White => Direction::Up,
    }
}

/// The rank a pawn of the given color starts on, where a double push is
/// offered.
pub open spec fn pawn_home_rank(color: Color) -> int {
    match color {
        Color::Black => 7,
        Color::White => 2,
    }
}

/// The rank from which any forward pawn move of the given color lands on
/// the far rank and promotes.
pub open spec fn pawn_promotion_rank(color: Color) -> int {
    match color {
        Color::Black => 2,
        Color::White => 7,
    }
}

/// The two diagonal capture directions of a pawn of the given color, in
/// generation order.
pub open spec fn pawn_capture_dirs(color: Color) -> (Direction, Direction) {
    match color {
        Color::Black => (Direction::DownLeft, Direction::DownRight),
        Color::White => (Direction::UpLeft, Direction::UpRight),
    }
}

/// The rank a pawn of the given color must stand on to capture en passant:
/// the rank immediately behind an enemy double push's destination.
pub open spec fn pawn_ep_rank(color: Color) -> int {
    match color {
        Color::Black => 4,
        Color::White => 5,
    }
}

/// The rank an en-passant capture of the given color lands on: the square
/// the enemy double push passed over.
pub open spec fn pawn_ep_dest_rank(color: Color) -> int {
    match color {
        Color::Black => 3,
        Color::White => 6,
    }
}

/// The four promotion moves from `origin` to `target`, one per promotion
/// piece, each carrying the capture bit when the move captures.
pub open spec fn spec_promotion_moves(origin: Square, target: Square, capture: bool) -> Seq<Move> {
    if capture {
        seq![
            Move { from: origin, to: target, flags: Flags { bits: CAPTURE | PROMOTION_BISHOP } },
            Move { from: origin, to: target, flags: Flags { bits: CAPTURE | PROMOTION_KNIGHT } },
            Move { from: origin, to: target, flags: Flags { bits: CAPTURE | PROMOTION_QUEEN } },
            Move { from: origin, to: target, flags: Flags { bits: CAPTURE | PROMOTION_ROOK } },
        ]
    } else {
        seq![
            Move { from: origin, to: target, flags: Flags { bits: PROMOTION_BISHOP } },
            Move { from: origin, to: target, flags: Flags { bits: PROMOTION_KNIGHT } },
            Move { from: origin, to: target, flags: Flags { bits: PROMOTION_QUEEN } },
            Move { from: origin, to: target, flags: Flags { bits: PROMOTION_ROOK } },
        ]
    }
}

/// The forward pushes of a pawn of `color` on `origin`: nothing when the
/// square ahead is occupied; otherwise the single push (as four promotion
/// moves from the promotion-eligible rank), and from the home rank also the
/// double push when the square two ahead is empty as well.
pub open spec fn spec_pawn_push_moves(b: BoardModel, color: Color, origin: Square) -> Seq<Move> {
    let fwd = origin.stepped(pawn_move_dir(color));
    let fwd2 = fwd.stepped(pawn_move_dir(color));
    if b.squares[fwd.idx as int] is None {
        (if origin.rank_spec() == pawn_promotion_rank(color) {
            spec_promotion_moves(origin, fwd, false)
        } else {
            seq![Move { from: origin, to: fwd, flags: Flags { bits: QUIET } }]
        }) + (if origin.rank_spec() == pawn_home_rank(color) && b.squares[fwd2.idx as int] is None {
            seq![Move { from: origin, to: fwd2, flags: Flags { bits: PAWN_SPRINT } }]
        } else {
            Seq::empty()
        })
    } else {
        Seq::empty()
    }
}

/// The diagonal captures of a pawn of `color` on `origin` toward `d`: one
/// capture (or four promotion captures from the promotion-eligible rank)
/// when the diagonal stays on the board and holds an opposing piece.
pub open spec fn spec_pawn_capture_moves(
    b: BoardModel,
    color: Color,
    origin: Square,
    d: Direction,
) -> Seq<Move> {
    if origin.step_in_bounds(d) && (b.squares[origin.stepped(d).idx as int] matches Some(p)
        && p.color == color.other_spec()) {
        if origin.rank_spec() == pawn_promotion_rank(color) {
            spec_promotion_moves(origin, origin.stepped(d), true)
        } else {
            seq![Move { from: origin, to: origin.stepped(d), flags: Flags { bits: CAPTURE } }]
        }
    } else {
        Seq::empty()
    }
}

/// The en-passant capture of a pawn of `color` on `origin`, present exactly
/// when the board's last move was a pawn double push on an adjacent file and
/// `origin` stands on the rank immediately behind the push's destination.
/// The capture lands on the square the double push passed over.
pub open spec fn spec_pawn_ep_moves(b: BoardModel, color: Color, origin: Square) -> Seq<Move> {
    match b.last_move {
        Some(lm) => {
            let sprint_col = lm.from.file_spec();
            if lm.flags.is_pawn_sprint_spec() && (origin.file_spec() == sprint_col - 1
                || origin.file_spec() == sprint_col + 1) && origin.rank_spec() == pawn_ep_rank(
                color,
            ) {
                seq![
                    Move {
                        from: origin,
                        to: Square {
                            idx: ((pawn_ep_dest_rank(color) - 1) * 8 + (sprint_col - 1)) as u8,
                        },
                        flags: Flags { bits: EP_CAPTURE },
                    },
                ]
            } else {
                Seq::empty()
            }
        },
        None => Seq::empty(),
    }
}

/// All moves of a pawn of `color` on `origin`: nothing from a back rank,
/// otherwise the forward pushes, the two diagonal captures, then the
/// en-passant capture.
pub open spec fn spec_pawn_moves(b: BoardModel, color: Color, origin: Square) -> Seq<Move> {
    if origin.rank_spec() == 1 || origin.rank_spec() == 8 {
        Seq::empty()
    } else {
        spec_pawn_push_moves(b, color, origin) + spec_pawn_capture_moves(
            b,
            color,
            origin,
            pawn_capture_dirs(color).0,
        ) + spec_pawn_capture_moves(b, color, origin, pawn_capture_dirs(color).1)
            + spec_pawn_ep_moves(b, color, origin)
    }
}

/// All moves of the piece of `color` and `kind` standing on `s`.
pub open spec fn spec_piece_moves(b: BoardModel, color: Color, s: Square, kind: Kind) -> Seq<Move> {
    match kind {
        Kind::Pawn => spec_pawn_moves(b, color, s),
        Kind::King => spec_king_moves(b, color, s),
        Kind::Knight => spec_knight_moves(b.squares, color, s),
        Kind::Bishop => spec_sliding_moves(b.squares, color, s, Kind::Bishop),
        Kind::Rook => spec_sliding_moves(b.squares, color, s, Kind::Rook),
        Kind::Queen => spec_sliding_moves(b.squares, color, s, Kind::Queen),
    }
}

/// The moves of every piece of `color` standing on a square with index `lo`
/// or above, in square order.
pub open spec fn spec_moves_from(b: BoardModel, color: Color, lo: int) -> Seq<Move>
    decreases 64 - lo,
{
    if lo < 0 || lo >= 64 {
        Seq::empty()
    } else {
        let here = match b.squares[lo] {
            Some(p) => {
                if p.color == color {
                    spec_piece_moves(b, color, Square { idx: lo as u8 }, p.kind)
                } else {
                    Seq::empty()
                }
            },
            None => Seq::empty(),
        };
        here + spec_moves_from(b, color, lo + 1)
    }
}

/// All pseudo-legal moves of `color`: every piece of that color, visited in
/// square order, contributes its moves. King safety is deliberately not
/// consulted.
pub open spec fn spec_generate_moves(b: BoardModel, color: Color) -> Seq<Move> {
    spec_moves_from(b, color, 0)
}

/// The move lies on the board and starts at one of `color`'s own pieces:
/// every generated move satisfies this, which is what `make_move` needs.
pub open spec fn move_from_own_piece(b: BoardModel, color: Color, m: Move) -> bool {
    m.wf() && (b.squares[m.from.idx as int] matches Some(p) && p.color == color)
}

} // verus!
