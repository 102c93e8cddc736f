//! Laws of the move generator, stated and proved over the spec-level model:
//! move counts of lone pieces, the promotion fan-out, en-passant uniqueness,
//! and the exact conditions under which a castling candidate appears.

use vstd::prelude::*;

use crate::board::BoardModel;
use crate::moves::{Flags, Move, CAPTURE, CASTLE_KING, CASTLE_QUEEN, EP_CAPTURE, QUIET};
use crate::movegen::{
    knight_directions, pawn_capture_dirs, pawn_ep_dest_rank, pawn_ep_rank, pawn_move_dir,
    pawn_promotion_rank,
    queen_directions, sliding_directions, spec_generate_moves, spec_moves_from, spec_piece_moves,
    spec_leaps_moves, spec_promotion_moves, spec_ray_moves, spec_rays_moves,
    spec_castle_moves, spec_king_moves, spec_pawn_capture_moves, spec_pawn_ep_moves,
    spec_pawn_moves, spec_pawn_push_moves,
    spec_sliding_moves, spec_step_moves,
};
use crate::piece::{Color, Kind, Piece};
use crate::square::{lemma_step_on_board, Direction, Square};

verus! {

/// `b` is well-formed and holds exactly one piece: `p`, standing on `s`.
pub open spec fn lone_piece_board(b: BoardModel, s: Square, p: Piece) -> bool {
    &&& b.wf()
    &&& s.wf()
    &&& b.squares[s.idx as int] == Some(p)
    &&& forall|j: int| 0 <= j < 64 && j != s.idx as int ==> b.squares[j] is None
}

/// On a board where `s` holds a piece of `color` and no other square holds a
/// piece of that color, the move list is exactly that one piece's move list.
proof fn lemma_moves_from_single_mover(b: BoardModel, color: Color, s: Square, p: Piece, lo: int)
    requires
        b.wf(),
        s.wf(),
        b.squares[s.idx as int] == Some(p),
        p.color == color,
        forall|j: int|
            0 <= j < 64 && j != s.idx as int ==> ((#[trigger] b.squares[j]) matches Some(q)
                ==> q.color != color),
        0 <= lo <= 64,
    ensures
        lo <= s.idx as int ==> spec_moves_from(b, color, lo) == spec_piece_moves(
            b,
            color,
            s,
            p.kind,
        ),
        lo > s.idx as int ==> spec_moves_from(b, color, lo) == Seq::<crate::moves::Move>::empty(),
    decreases 64 - lo,
{
    if lo < 64 {
        lemma_moves_from_single_mover(b, color, s, p, lo + 1);
        if lo == s.idx as int {
            assert(Square { idx: lo as u8 } == s);
            assert(spec_moves_from(b, color, lo) =~= spec_piece_moves(b, color, s, p.kind));
        } else {
            assert(spec_moves_from(b, color, lo) =~= spec_moves_from(b, color, lo + 1));
        }
    }
}

/// How many in-bounds steps remain from `cur` to the board edge along one of
/// the four orthogonal directions.
pub open spec fn ray_steps_to_edge(cur: Square, d: Direction) -> int {
    match d {
        Direction::Up => 8 - cur.rank_spec(),
        Direction::Down => cur.rank_spec() - 1,
        Direction::Left => cur.file_spec() - 1,
        Direction::Right => 8 - cur.file_spec(),
        _ => 0,
    }
}

/// On a board whose only occupant stands on `origin`, a ray walked from
/// `cur` away from `origin` yields one quiet move per remaining square to
/// the edge.
proof fn lemma_ray_len_empty(
    sq: Seq<Option<Piece>>,
    color: Color,
    origin: Square,
    cur: Square,
    d: Direction,
)
    requires
        sq.len() == 64,
        origin.wf(),
        cur.wf(),
        d == Direction::Up || d == Direction::Down || d == Direction::Left || d
            == Direction::Right,
        forall|j: int| 0 <= j < 64 && j != origin.idx as int ==> sq[j] is None,
        if d.offset() > 0 {
            cur.idx >= origin.idx
        } else {
            cur.idx <= origin.idx
        },
    ensures
        spec_ray_moves(sq, color, origin, cur, d).len() == ray_steps_to_edge(cur, d),
    decreases (if d.offset() > 0 {
        255 - cur.idx as int
    } else {
        cur.idx as int
    }),
{
    if cur.step_in_bounds(d) {
        lemma_step_on_board(cur, d);
        let t = cur.stepped(d);
        lemma_ray_len_empty(sq, color, origin, t, d);
    }
}

/// A lone rook, on any of the 64 squares and of either color, has exactly
/// 14 candidate moves: the whole of its rank and the whole of its file.
pub proof fn lemma_lone_rook_fourteen_moves(b: BoardModel, s: Square, color: Color)
    requires
        lone_piece_board(b, s, Piece { color, kind: Kind::Rook }),
    ensures
        spec_generate_moves(b, color).len() == 14,
{
    let p = Piece { color, kind: Kind::Rook };
    lemma_moves_from_single_mover(b, color, s, p, 0);
    assert(spec_generate_moves(b, color) == spec_sliding_moves(b.squares, color, s, Kind::Rook));

    let dirs = sliding_directions(Kind::Rook);
    assert(dirs.len() == 4);
    assert(dirs[0] == Direction::Up);
    assert(dirs[1] == Direction::Down);
    assert(dirs[2] == Direction::Left);
    assert(dirs[3] == Direction::Right);
    assert(dirs.drop_first() =~= queen_directions().subrange(1, 4));
    assert(queen_directions().subrange(1, 4).drop_first() =~= queen_directions().subrange(2, 4));
    assert(queen_directions().subrange(2, 4).drop_first() =~= queen_directions().subrange(3, 4));
    assert(queen_directions().subrange(3, 4).drop_first() =~= Seq::<Direction>::empty());

    assert(queen_directions().subrange(1, 4)[0] == Direction::Down);
    assert(queen_directions().subrange(2, 4)[0] == Direction::Left);
    assert(queen_directions().subrange(3, 4)[0] == Direction::Right);
    assert(spec_rays_moves(b.squares, color, s, Seq::<Direction>::empty()) =~= Seq::<
        crate::moves::Move,
    >::empty());

    lemma_ray_len_empty(b.squares, color, s, s, Direction::Up);
    lemma_ray_len_empty(b.squares, color, s, s, Direction::Down);
    lemma_ray_len_empty(b.squares, color, s, s, Direction::Left);
    lemma_ray_len_empty(b.squares, color, s, s, Direction::Right);

    assert(spec_rays_moves(b.squares, color, s, queen_directions().subrange(3, 4)).len()
        == ray_steps_to_edge(s, Direction::Right));
    assert(spec_rays_moves(b.squares, color, s, queen_directions().subrange(2, 4)).len()
        == ray_steps_to_edge(s, Direction::Left) + ray_steps_to_edge(s, Direction::Right));
    assert(spec_rays_moves(b.squares, color, s, queen_directions().subrange(1, 4)).len()
        == ray_steps_to_edge(s, Direction::Down) + ray_steps_to_edge(s, Direction::Left)
        + ray_steps_to_edge(s, Direction::Right));
    assert(spec_sliding_moves(b.squares, color, s, Kind::Rook).len() == ray_steps_to_edge(
        s,
        Direction::Up,
    ) + ray_steps_to_edge(s, Direction::Down) + ray_steps_to_edge(s, Direction::Left)
        + ray_steps_to_edge(s, Direction::Right));
}

/// How many of the knight directions at index `i` and above stay on the
/// board when stepped from `s`.
pub open spec fn count_in_bounds_knight_steps(s: Square, i: int) -> int
    decreases 8 - i,
{
    if i < 0 || i >= 8 {
        0
    } else {
        (if s.step_in_bounds(knight_directions()[i]) {
            1int
        } else {
            0int
        }) + count_in_bounds_knight_steps(s, i + 1)
    }
}

/// On a board whose only occupant stands on `origin`, the single-step moves
/// along the knight directions at index `i` and above are one quiet move per
/// in-bounds direction.
proof fn lemma_knight_leaps_len_empty(sq: Seq<Option<Piece>>, color: Color, origin: Square, i: int)
    requires
        sq.len() == 64,
        origin.wf(),
        forall|j: int| 0 <= j < 64 && j != origin.idx as int ==> sq[j] is None,
        0 <= i <= 8,
    ensures
        spec_leaps_moves(sq, color, origin, knight_directions().skip(i)).len()
            == count_in_bounds_knight_steps(origin, i),
    decreases 8 - i,
{
    let dirs = knight_directions();
    if i == 8 {
        assert(dirs.skip(8) =~= Seq::<Direction>::empty());
    } else {
        lemma_knight_leaps_len_empty(sq, color, origin, i + 1);
        let d = dirs[i];
        assert(dirs.skip(i)[0] == d);
        assert(dirs.skip(i).drop_first() =~= dirs.skip(i + 1));
        if origin.step_in_bounds(d) {
            lemma_step_on_board(origin, d);
            assert(d.offset() != 0);
            assert(spec_step_moves(sq, color, origin, d).len() == 1);
        }
    }
}

/// A lone knight, on any square and of either color, has exactly one
/// candidate move per knight step that stays on the board: its move count is
/// determined solely by the bounds-check table.
pub proof fn lemma_lone_knight_moves(b: BoardModel, s: Square, color: Color)
    requires
        lone_piece_board(b, s, Piece { color, kind: Kind::Knight }),
    ensures
        spec_generate_moves(b, color).len() == count_in_bounds_knight_steps(s, 0),
{
    let p = Piece { color, kind: Kind::Knight };
    lemma_moves_from_single_mover(b, color, s, p, 0);
    assert(knight_directions().skip(0) =~= knight_directions());
    lemma_knight_leaps_len_empty(b.squares, color, s, 0);
}

/// A lone knight in the open board interior has exactly 8 candidate moves.
pub proof fn lemma_lone_knight_interior_eight_moves(b: BoardModel, s: Square, color: Color)
    requires
        lone_piece_board(b, s, Piece { color, kind: Kind::Knight }),
        3 <= s.rank_spec() <= 6,
        3 <= s.file_spec() <= 6,
    ensures
        spec_generate_moves(b, color).len() == 8,
{
    lemma_lone_knight_moves(b, s, color);
    assert(count_in_bounds_knight_steps(s, 8) == 0);
    assert(count_in_bounds_knight_steps(s, 7) == 1);
    assert(count_in_bounds_knight_steps(s, 6) == 2);
    assert(count_in_bounds_knight_steps(s, 5) == 3);
    assert(count_in_bounds_knight_steps(s, 4) == 4);
    assert(count_in_bounds_knight_steps(s, 3) == 5);
    assert(count_in_bounds_knight_steps(s, 2) == 6);
    assert(count_in_bounds_knight_steps(s, 1) == 7);
    assert(count_in_bounds_knight_steps(s, 0) == 8);
}

/// A lone pawn on its promotion-eligible rank, with the square ahead empty,
/// generates exactly the four promotion moves, one per promotion piece.
pub proof fn lemma_lone_pawn_promotion_moves(b: BoardModel, s: Square, color: Color)
    requires
        lone_piece_board(b, s, Piece { color, kind: Kind::Pawn }),
        s.rank_spec() == pawn_promotion_rank(color),
    ensures
        spec_generate_moves(b, color) == spec_promotion_moves(
            s,
            s.stepped(pawn_move_dir(color)),
            false,
        ),
        spec_generate_moves(b, color).len() == 4,
{
    let p = Piece { color, kind: Kind::Pawn };
    lemma_moves_from_single_mover(b, color, s, p, 0);
    let d = pawn_move_dir(color);
    lemma_step_on_board(s, d);
    let fwd = s.stepped(d);
    assert(b.squares[fwd.idx as int] is None);
    assert(spec_pawn_push_moves(b, color, s) =~= spec_promotion_moves(s, fwd, false));

    let (cl, cr) = pawn_capture_dirs(color);
    if s.step_in_bounds(cl) {
        lemma_step_on_board(s, cl);
    }
    if s.step_in_bounds(cr) {
        lemma_step_on_board(s, cr);
    }
    assert(spec_pawn_capture_moves(b, color, s, cl) =~= Seq::<crate::moves::Move>::empty());
    assert(spec_pawn_capture_moves(b, color, s, cr) =~= Seq::<crate::moves::Move>::empty());
    assert(spec_pawn_ep_moves(b, color, s) =~= Seq::<crate::moves::Move>::empty());
    assert(spec_pawn_moves(b, color, s) =~= spec_promotion_moves(s, fwd, false));
}

/// A pawn on its promotion-eligible rank with the square ahead empty and one
/// capturable enemy on a diagonal, alone on the board with that enemy,
/// generates exactly 8 moves: four quiet promotions and four promotion
/// captures.
pub proof fn lemma_pawn_promotion_capture_moves(
    b: BoardModel,
    s: Square,
    color: Color,
    d: Direction,
    enemy: Piece,
)
    requires
        b.wf(),
        s.wf(),
        d == pawn_capture_dirs(color).0 || d == pawn_capture_dirs(color).1,
        s.step_in_bounds(d),
        s.rank_spec() == pawn_promotion_rank(color),
        b.squares[s.idx as int] == Some(Piece { color, kind: Kind::Pawn }),
        b.squares[s.stepped(d).idx as int] == Some(enemy),
        enemy.color == color.other_spec(),
        forall|j: int|
            0 <= j < 64 && j != s.idx as int && j != s.stepped(d).idx as int ==> b.squares[j]
                is None,
    ensures
        spec_generate_moves(b, color).len() == 8,
{
    let p = Piece { color, kind: Kind::Pawn };
    lemma_step_on_board(s, d);
    lemma_moves_from_single_mover(b, color, s, p, 0);

    let up = pawn_move_dir(color);
    lemma_step_on_board(s, up);
    let fwd = s.stepped(up);
    assert(fwd.idx != s.stepped(d).idx);
    assert(b.squares[fwd.idx as int] is None);
    assert(spec_pawn_push_moves(b, color, s) =~= spec_promotion_moves(s, fwd, false));

    let (cl, cr) = pawn_capture_dirs(color);
    let other = if d == cl {
        cr
    } else {
        cl
    };
    if s.step_in_bounds(other) {
        lemma_step_on_board(s, other);
        assert(s.stepped(other).idx != s.stepped(d).idx);
        assert(b.squares[s.stepped(other).idx as int] is None);
    }
    assert(spec_pawn_capture_moves(b, color, s, other) =~= Seq::<crate::moves::Move>::empty());
    assert(spec_pawn_capture_moves(b, color, s, d) =~= spec_promotion_moves(
        s,
        s.stepped(d),
        true,
    ));
    assert(spec_pawn_ep_moves(b, color, s) =~= Seq::<crate::moves::Move>::empty());
    assert(spec_pawn_moves(b, color, s).len() == 8);
}

/// After an enemy pawn double push to a square adjacent to a pawn of `color`
/// standing on the en-passant rank, that pawn's move list contains exactly
/// one en-passant capture, and its destination is the square the double push
/// passed over.
pub proof fn lemma_en_passant_exactly_one(b: BoardModel, color: Color, s: Square, lm: Move)
    requires
        b.wf(),
        s.wf(),
        b.squares[s.idx as int] == Some(Piece { color, kind: Kind::Pawn }),
        s.rank_spec() == pawn_ep_rank(color),
        b.last_move == Some(lm),
        lm.flags.is_pawn_sprint_spec(),
        lm.from.file_spec() == s.file_spec() - 1 || lm.from.file_spec() == s.file_spec() + 1,
    ensures
        exists|i: int|
            0 <= i < spec_pawn_moves(b, color, s).len() && (#[trigger] spec_pawn_moves(
                b,
                color,
                s,
            )[i]).flags.is_en_passant_spec() && spec_pawn_moves(b, color, s)[i].to == (Square {
                idx: ((pawn_ep_dest_rank(color) - 1) * 8 + (lm.from.file_spec() - 1)) as u8,
            }),
        forall|i: int, j: int|
            0 <= i < spec_pawn_moves(b, color, s).len() && 0 <= j < spec_pawn_moves(
                b,
                color,
                s,
            ).len() && (#[trigger] spec_pawn_moves(b, color, s)[i]).flags.is_en_passant_spec() && (
            #[trigger] spec_pawn_moves(b, color, s)[j]).flags.is_en_passant_spec() ==> i == j,
{
    let ms = spec_pawn_moves(b, color, s);
    let pushes = spec_pawn_push_moves(b, color, s);
    let (cl, cr) = pawn_capture_dirs(color);
    let capl = spec_pawn_capture_moves(b, color, s, cl);
    let capr = spec_pawn_capture_moves(b, color, s, cr);
    let ep = spec_pawn_ep_moves(b, color, s);

    assert(s.rank_spec() != 1 && s.rank_spec() != 8);
    assert(s.rank_spec() != pawn_promotion_rank(color));
    assert(ms == pushes + capl + capr + ep);

    assert(forall|i: int| 0 <= i < pushes.len() ==> !(#[trigger] pushes[i]).flags.is_en_passant_spec());
    assert(forall|i: int| 0 <= i < capl.len() ==> !(#[trigger] capl[i]).flags.is_en_passant_spec());
    assert(forall|i: int| 0 <= i < capr.len() ==> !(#[trigger] capr[i]).flags.is_en_passant_spec());

    let dest = Square { idx: ((pawn_ep_dest_rank(color) - 1) * 8 + (lm.from.file_spec() - 1)) as u8 };
    assert(ep =~= seq![
        crate::moves::Move { from: s, to: dest, flags: crate::moves::Flags { bits: EP_CAPTURE } },
    ]);
    assert(ms[ms.len() - 1] == ep[0]);
    assert(ms[ms.len() - 1].flags.is_en_passant_spec() && ms[ms.len() - 1].to == dest);
}

/// Every single-step king or knight move is a quiet move or a capture: it
/// never carries castle flags.
proof fn lemma_leaps_flags(
    sq: Seq<Option<Piece>>,
    color: Color,
    origin: Square,
    dirs: Seq<Direction>,
)
    ensures
        forall|i: int|
            0 <= i < spec_leaps_moves(sq, color, origin, dirs).len() ==> ((#[trigger] spec_leaps_moves(
                sq,
                color,
                origin,
                dirs,
            )[i]).flags == (Flags { bits: QUIET }) || spec_leaps_moves(sq, color, origin, dirs)[i].flags
                == (Flags { bits: CAPTURE })),
    decreases dirs.len(),
{
    if dirs.len() > 0 {
        lemma_leaps_flags(sq, color, origin, dirs.drop_first());
        let step = spec_step_moves(sq, color, origin, dirs[0]);
        let rest = spec_leaps_moves(sq, color, origin, dirs.drop_first());
        assert(spec_leaps_moves(sq, color, origin, dirs) == step + rest);
        assert forall|i: int|
            0 <= i < spec_leaps_moves(sq, color, origin, dirs).len() implies ((#[trigger] spec_leaps_moves(
            sq,
            color,
            origin,
            dirs,
        )[i]).flags == (Flags { bits: QUIET }) || spec_leaps_moves(sq, color, origin, dirs)[i].flags
            == (Flags { bits: CAPTURE })) by {
            if i < step.len() {
                assert(spec_leaps_moves(sq, color, origin, dirs)[i] == step[i]);
            } else {
                assert(spec_leaps_moves(sq, color, origin, dirs)[i] == rest[i - step.len()]);
            }
        }
    }
}

/// A castling candidate appears in a king's move list exactly when: the king
/// stands on its home square, its color still holds a castling right, the
/// same-color rook stands on that side's home-rank corner, and all squares
/// strictly between king and rook are empty. Whether any of the king's
/// start, transit or landing squares are attacked is deliberately not part
/// of the condition.
pub proof fn lemma_castle_candidate_iff(b: BoardModel, color: Color, s: Square)
    requires
        b.wf(),
        s.wf(),
    ensures
        (exists|i: int|
            0 <= i < spec_king_moves(b, color, s).len() && (#[trigger] spec_king_moves(
                b,
                color,
                s,
            )[i]).flags == (Flags { bits: CASTLE_KING })) <==> (s == color.king_square_spec()
            && b.rights.any_spec(color) && (b.squares[(s.rank_spec() - 1) * 8 + 7] matches Some(p)
            && p.kind == Kind::Rook && p.color == color) && b.squares[s.idx + 1] is None
            && b.squares[s.idx + 2] is None),
        (exists|i: int|
            0 <= i < spec_king_moves(b, color, s).len() && (#[trigger] spec_king_moves(
                b,
                color,
                s,
            )[i]).flags == (Flags { bits: CASTLE_QUEEN })) <==> (s == color.king_square_spec()
            && b.rights.any_spec(color) && (b.squares[(s.rank_spec() - 1) * 8] matches Some(p)
            && p.kind == Kind::Rook && p.color == color) && b.squares[s.idx - 1] is None
            && b.squares[s.idx - 2] is None && b.squares[s.idx - 3] is None),
{
    let ms = spec_king_moves(b, color, s);
    let leaps = spec_leaps_moves(b.squares, color, s, queen_directions());
    let castles = spec_castle_moves(b, color, s);
    assert(ms == leaps + castles);
    lemma_leaps_flags(b.squares, color, s, queen_directions());
    assert(((s.rank_spec() - 1) * 8 + 7) as u8 as int == (s.rank_spec() - 1) * 8 + 7);
    assert(((s.rank_spec() - 1) * 8) as u8 as int == (s.rank_spec() - 1) * 8);

    let kingside_ok = s == color.king_square_spec() && b.rights.any_spec(color) && (b.squares[(
    s.rank_spec() - 1) * 8 + 7] matches Some(p) && p.kind == Kind::Rook && p.color == color)
        && b.squares[s.idx + 1] is None && b.squares[s.idx + 2] is None;
    let queenside_ok = s == color.king_square_spec() && b.rights.any_spec(color) && (b.squares[(
    s.rank_spec() - 1) * 8] matches Some(p) && p.kind == Kind::Rook && p.color == color)
        && b.squares[s.idx - 1] is None && b.squares[s.idx - 2] is None && b.squares[s.idx
        - 3] is None;

    if kingside_ok {
        assert(castles[0].flags == (Flags { bits: CASTLE_KING }));
        assert(ms[leaps.len() as int] == castles[0]);
        assert(leaps.len() < ms.len());
    }
    if queenside_ok {
        let k = if kingside_ok { 1int } else { 0int };
        assert(castles[k].flags == (Flags { bits: CASTLE_QUEEN }));
        assert(ms[leaps.len() + k] == castles[k]);
    }
    if exists|i: int|
        0 <= i < ms.len() && (#[trigger] ms[i]).flags == (Flags { bits: CASTLE_KING }) {
        let i = choose|i: int|
            0 <= i < ms.len() && (#[trigger] ms[i]).flags == (Flags { bits: CASTLE_KING });
        assert(i >= leaps.len());
        assert(kingside_ok);
    }
    if exists|i: int|
        0 <= i < ms.len() && (#[trigger] ms[i]).flags == (Flags { bits: CASTLE_QUEEN }) {
        let i = choose|i: int|
            0 <= i < ms.len() && (#[trigger] ms[i]).flags == (Flags { bits: CASTLE_QUEEN });
        assert(i >= leaps.len());
        assert(queenside_ok);
    }
}


} // verus!
