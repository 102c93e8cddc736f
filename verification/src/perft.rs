//! The perft harness: exhaustively counts the leaf positions reachable by
//! legal play to a fixed depth.
//!
//! Each pseudo-legal move is made on the board; if it leaves the mover's own
//! king safe the count recurses one ply deeper, and the move is always
//! undone before the next one is tried. This single oracle exercises move
//! encoding, bounds arithmetic, castling-rights bookkeeping, en-passant
//! eligibility, and the make/unmake protocol end to end.

use vstd::prelude::*;

use crate::board::{lemma_make_unmake, spec_make_board, Board, BoardModel};
use crate::check::spec_king_in_check;
use crate::movegen::{move_from_own_piece, spec_generate_moves};
use crate::moves::Move;
use crate::piece::Color;

verus! {

/// The number of leaf positions reachable from `b` with `color` to move in
/// exactly `depth` plies of legal play: 1 at depth 0, else the sum over all
/// pseudo-legal moves that leave the mover's king safe.
pub open spec fn spec_perft(b: BoardModel, color: Color, depth: nat) -> nat
    decreases depth, 1int, 0int,
{
    if depth == 0 {
        1
    } else {
        spec_perft_sum(b, color, depth, spec_generate_moves(b, color), 0)
    }
}

/// The perft contributions of the moves of `moves` at index `i` and above:
/// a move that leaves the mover's own king in check contributes 0, any
/// other contributes the perft count of the resulting board one ply deeper
/// with the other color to move.
pub open spec fn spec_perft_sum(
    b: BoardModel,
    color: Color,
    depth: nat,
    moves: Seq<Move>,
    i: int,
) -> nat
    decreases depth, 0int, moves.len() - i,
{
    if depth == 0 || i < 0 || i >= moves.len() {
        0
    } else {
        let child = spec_make_board(b, moves[i]);
        let here: nat = if !spec_king_in_check(child, color) {
            spec_perft(child, color.other_spec(), (depth - 1) as nat)
        } else {
            0
        };
        here + spec_perft_sum(b, color, depth, moves, i + 1)
    }
}

/// Counts the leaf positions reachable from `board` with `color` to move in
/// exactly `depth` plies of legal play, leaving the board as it was found.
///
/// Every pseudo-legal move is applied with `make_move`; the recursion
/// descends only when the mover's own king is not left in check, and the
/// move is always undone before the next one, legal or not.
pub fn perft(depth: usize, board: &mut Board, color: Color) -> (r: usize)
    requires
        old(board).wf(),
        spec_perft(old(board)@, color, depth as nat) <= usize::MAX,
    ensures
        final(board)@ == old(board)@,
        final(board).wf(),
        r == spec_perft(old(board)@, color, depth as nat),
    decreases depth,
{
    if depth == 0 {
        return 1;
    }

    let mut result: usize = 0;

    let moves = board.generate_moves(color);
    let ghost b0 = board@;
    let n = moves.len();
    let mut i: usize = 0;
    while i < n
        invariant
            board.wf(),
            board@ == b0,
            b0 == old(board)@,
            depth >= 1,
            n == moves@.len(),
            i <= n,
            moves@ == spec_generate_moves(b0, color),
            forall|k: int|
                0 <= k < moves@.len() ==> move_from_own_piece(b0, color, #[trigger] moves@[k]),
            result + spec_perft_sum(b0, color, depth as nat, moves@, i as int) == spec_perft(
                b0,
                color,
                depth as nat,
            ),
            spec_perft(b0, color, depth as nat) <= usize::MAX,
        decreases n - i,
    {
        let mov = moves[i];
        let modification = board.make_move(mov);
        if !board.king_in_check(color) {
            let sub = perft(depth - 1, board, color.other());
            result = result + sub;
        }

        board.unmake_move(modification);
        proof {
            lemma_make_unmake(b0, mov);
        }
        i = i + 1;
    }

    result
}

} // verus!
