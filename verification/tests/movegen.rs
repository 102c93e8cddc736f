use libchess::default_setup;
use libchess::moves::{
    CAPTURE, CASTLE_KING, EP_CAPTURE, PAWN_SPRINT, PROMOTION_BISHOP, PROMOTION_KNIGHT,
    PROMOTION_QUEEN, PROMOTION_ROOK, QUIET,
};
use libchess::{Board, Color, Flags, Kind, Move, Piece, Side, Square};

fn sq(row: u8, col: u8) -> Square {
    Square::from_coordinates(row, col)
}

fn quiet(from: Square, to: Square) -> Move {
    Move::new(from, to, Flags::new(QUIET))
}

fn capture(from: Square, to: Square) -> Move {
    Move::new(from, to, Flags::new(CAPTURE))
}

#[test]
fn test_move_gen_default_setup() {
    let mut b = Board::new();
    b.populate(&default_setup());

    assert_eq!(20, b.generate_moves(Color::White).len());
}

#[test]
fn test_move_gen_knight_center_of_board() {
    for color in [Color::White, Color::Black] {
        let mut b = Board::new();
        b.place(sq(4, 3), Piece::new(color, Kind::Knight));

        let moves = b.generate_moves(color);
        assert_eq!(8, moves.len());
        assert!(moves.contains(&quiet(sq(4, 3), sq(3, 1))));
        assert!(moves.contains(&quiet(sq(4, 3), sq(5, 1))));
        assert!(moves.contains(&quiet(sq(4, 3), sq(2, 2))));
        assert!(moves.contains(&quiet(sq(4, 3), sq(6, 2))));
        assert!(moves.contains(&quiet(sq(4, 3), sq(2, 4))));
        assert!(moves.contains(&quiet(sq(4, 3), sq(6, 4))));
        assert!(moves.contains(&quiet(sq(4, 3), sq(3, 5))));
        assert!(moves.contains(&quiet(sq(4, 3), sq(5, 5))));
    }
}

#[test]
fn test_move_gen_knight_capture() {
    for color in [Color::White, Color::Black] {
        let mut b = Board::new();
        b.place(sq(4, 3), Piece::new(color, Kind::Knight));

        b.place(sq(3, 1), Piece::new(color.other(), Kind::Rook));
        b.place(sq(5, 1), Piece::new(color.other(), Kind::Rook));
        b.place(sq(2, 2), Piece::new(color.other(), Kind::Rook));
        b.place(sq(6, 2), Piece::new(color.other(), Kind::Rook));
        b.place(sq(2, 4), Piece::new(color.other(), Kind::Rook));
        b.place(sq(6, 4), Piece::new(color.other(), Kind::Rook));
        b.place(sq(3, 5), Piece::new(color.other(), Kind::Rook));
        b.place(sq(5, 5), Piece::new(color.other(), Kind::Rook));

        let moves = b.generate_moves(color);
        assert_eq!(8, moves.len());
        assert!(moves.contains(&capture(sq(4, 3), sq(3, 1))));
        assert!(moves.contains(&capture(sq(4, 3), sq(5, 1))));
        assert!(moves.contains(&capture(sq(4, 3), sq(2, 2))));
        assert!(moves.contains(&capture(sq(4, 3), sq(6, 2))));
        assert!(moves.contains(&capture(sq(4, 3), sq(2, 4))));
        assert!(moves.contains(&capture(sq(4, 3), sq(6, 4))));
        assert!(moves.contains(&capture(sq(4, 3), sq(3, 5))));
        assert!(moves.contains(&capture(sq(4, 3), sq(5, 5))));
    }
}

#[test]
fn test_move_gen_queen_capture_cornered() {
    for color in [Color::White, Color::Black] {
        let mut b = Board::new();
        b.place(sq(1, 1), Piece::new(color, Kind::Queen));
        b.place(sq(2, 1), Piece::new(color.other(), Kind::Queen));
        b.place(sq(2, 2), Piece::new(color.other(), Kind::Queen));
        b.place(sq(1, 2), Piece::new(color.other(), Kind::Queen));

        let moves = b.generate_moves(color);
        assert_eq!(3, moves.len());
        assert!(moves.contains(&capture(sq(1, 1), sq(2, 1))));
        assert!(moves.contains(&capture(sq(1, 1), sq(1, 2))));
        assert!(moves.contains(&capture(sq(1, 1), sq(2, 2))));
    }
}

#[test]
fn test_move_gen_queen_simple() {
    for color in [Color::White, Color::Black] {
        let mut b = Board::new();
        b.place(sq(4, 3), Piece::new(color, Kind::Queen));

        let moves = b.generate_moves(color);
        assert_eq!(25, moves.len());
        assert!(moves.contains(&quiet(sq(4, 3), sq(2, 1))));
        assert!(moves.contains(&quiet(sq(4, 3), sq(3, 2))));
        assert!(moves.contains(&quiet(sq(4, 3), sq(3, 4))));
        assert!(moves.contains(&quiet(sq(4, 3), sq(2, 5))));
        assert!(moves.contains(&quiet(sq(4, 3), sq(1, 6))));
        assert!(moves.contains(&quiet(sq(4, 3), sq(5, 2))));
        assert!(moves.contains(&quiet(sq(4, 3), sq(6, 1))));
        assert!(moves.contains(&quiet(sq(4, 3), sq(5, 4))));
        assert!(moves.contains(&quiet(sq(4, 3), sq(6, 5))));
        assert!(moves.contains(&quiet(sq(4, 3), sq(7, 6))));
        assert!(moves.contains(&quiet(sq(4, 3), sq(8, 7))));

        assert!(moves.contains(&quiet(sq(4, 3), sq(4, 1))));
        assert!(moves.contains(&quiet(sq(4, 3), sq(4, 2))));
        assert!(moves.contains(&quiet(sq(4, 3), sq(4, 4))));
        assert!(moves.contains(&quiet(sq(4, 3), sq(4, 5))));
        assert!(moves.contains(&quiet(sq(4, 3), sq(4, 6))));
        assert!(moves.contains(&quiet(sq(4, 3), sq(4, 7))));
        assert!(moves.contains(&quiet(sq(4, 3), sq(4, 8))));

        assert!(moves.contains(&quiet(sq(4, 3), sq(1, 3))));
        assert!(moves.contains(&quiet(sq(4, 3), sq(2, 3))));
        assert!(moves.contains(&quiet(sq(4, 3), sq(3, 3))));
        assert!(moves.contains(&quiet(sq(4, 3), sq(5, 3))));
        assert!(moves.contains(&quiet(sq(4, 3), sq(6, 3))));
        assert!(moves.contains(&quiet(sq(4, 3), sq(7, 3))));
        assert!(moves.contains(&quiet(sq(4, 3), sq(8, 3))));
    }
}

#[test]
fn test_move_gen_queen_capture() {
    for color in [Color::White, Color::Black] {
        let mut b = Board::new();
        b.place(sq(4, 3), Piece::new(color, Kind::Queen));

        b.place(sq(4, 1), Piece::new(color.other(), Kind::Knight));
        b.place(sq(4, 8), Piece::new(color.other(), Kind::Knight));
        b.place(sq(8, 3), Piece::new(color.other(), Kind::Knight));
        b.place(sq(1, 3), Piece::new(color.other(), Kind::Knight));
        b.place(sq(8, 7), Piece::new(color.other(), Kind::Knight));
        b.place(sq(1, 6), Piece::new(color.other(), Kind::Knight));
        b.place(sq(2, 1), Piece::new(color.other(), Kind::Knight));
        b.place(sq(6, 1), Piece::new(color.other(), Kind::Knight));

        let moves = b.generate_moves(color);
        assert_eq!(25, moves.len());
        assert!(moves.contains(&capture(sq(4, 3), sq(2, 1))));
        assert!(moves.contains(&quiet(sq(4, 3), sq(3, 2))));
        assert!(moves.contains(&quiet(sq(4, 3), sq(3, 4))));
        assert!(moves.contains(&quiet(sq(4, 3), sq(2, 5))));
        assert!(moves.contains(&capture(sq(4, 3), sq(1, 6))));
        assert!(moves.contains(&quiet(sq(4, 3), sq(5, 2))));
        assert!(moves.contains(&capture(sq(4, 3), sq(6, 1))));
        assert!(moves.contains(&quiet(sq(4, 3), sq(5, 4))));
        assert!(moves.contains(&quiet(sq(4, 3), sq(6, 5))));
        assert!(moves.contains(&quiet(sq(4, 3), sq(7, 6))));
        assert!(moves.contains(&capture(sq(4, 3), sq(8, 7))));

        assert!(moves.contains(&capture(sq(4, 3), sq(4, 1))));
        assert!(moves.contains(&quiet(sq(4, 3), sq(4, 2))));
        assert!(moves.contains(&quiet(sq(4, 3), sq(4, 4))));
        assert!(moves.contains(&quiet(sq(4, 3), sq(4, 5))));
        assert!(moves.contains(&quiet(sq(4, 3), sq(4, 6))));
        assert!(moves.contains(&quiet(sq(4, 3), sq(4, 7))));
        assert!(moves.contains(&capture(sq(4, 3), sq(4, 8))));

        assert!(moves.contains(&capture(sq(4, 3), sq(1, 3))));
        assert!(moves.contains(&quiet(sq(4, 3), sq(2, 3))));
        assert!(moves.contains(&quiet(sq(4, 3), sq(3, 3))));
        assert!(moves.contains(&quiet(sq(4, 3), sq(5, 3))));
        assert!(moves.contains(&quiet(sq(4, 3), sq(6, 3))));
        assert!(moves.contains(&quiet(sq(4, 3), sq(7, 3))));
        assert!(moves.contains(&capture(sq(4, 3), sq(8, 3))));
    }
}

#[test]
fn test_move_gen_bishop_simple() {
    for color in [Color::White, Color::Black] {
        let mut b = Board::new();
        b.place(sq(4, 3), Piece::new(color, Kind::Bishop));

        let moves = b.generate_moves(color);
        assert_eq!(11, moves.len());
        assert!(moves.contains(&quiet(sq(4, 3), sq(2, 1))));
        assert!(moves.contains(&quiet(sq(4, 3), sq(3, 2))));
        assert!(moves.contains(&quiet(sq(4, 3), sq(3, 4))));
        assert!(moves.contains(&quiet(sq(4, 3), sq(2, 5))));
        assert!(moves.contains(&quiet(sq(4, 3), sq(1, 6))));
        assert!(moves.contains(&quiet(sq(4, 3), sq(5, 2))));
        assert!(moves.contains(&quiet(sq(4, 3), sq(6, 1))));
        assert!(moves.contains(&quiet(sq(4, 3), sq(5, 4))));
        assert!(moves.contains(&quiet(sq(4, 3), sq(6, 5))));
        assert!(moves.contains(&quiet(sq(4, 3), sq(7, 6))));
        assert!(moves.contains(&quiet(sq(4, 3), sq(8, 7))));
    }
}

#[test]
fn test_move_gen_rook_simple() {
    for color in [Color::White, Color::Black] {
        let mut b = Board::new();
        b.place(sq(2, 2), Piece::new(color, Kind::Rook));

        let moves = b.generate_moves(color);
        assert_eq!(14, moves.len());
        assert!(moves.contains(&quiet(sq(2, 2), sq(2, 1))));
        assert!(moves.contains(&quiet(sq(2, 2), sq(2, 3))));
        assert!(moves.contains(&quiet(sq(2, 2), sq(2, 4))));
        assert!(moves.contains(&quiet(sq(2, 2), sq(2, 5))));
        assert!(moves.contains(&quiet(sq(2, 2), sq(2, 6))));
        assert!(moves.contains(&quiet(sq(2, 2), sq(2, 7))));
        assert!(moves.contains(&quiet(sq(2, 2), sq(2, 8))));

        assert!(moves.contains(&quiet(sq(2, 2), sq(1, 2))));
        assert!(moves.contains(&quiet(sq(2, 2), sq(3, 2))));
        assert!(moves.contains(&quiet(sq(2, 2), sq(4, 2))));
        assert!(moves.contains(&quiet(sq(2, 2), sq(5, 2))));
        assert!(moves.contains(&quiet(sq(2, 2), sq(6, 2))));
        assert!(moves.contains(&quiet(sq(2, 2), sq(7, 2))));
        assert!(moves.contains(&quiet(sq(2, 2), sq(8, 2))));
    }
}

#[test]
fn test_move_gen_rook_14_moves() {
    // no matter where the rook is placed, if the rook is the only piece on
    // the board, it will always have 14 possible moves

    for idx in 0..64u8 {
        for color in [Color::White, Color::Black] {
            let mut b = Board::new();
            b.place(Square { idx }, Piece::new(color, Kind::Rook));
            assert_eq!(14, b.generate_moves(color).len());
        }
    }
}

#[test]
fn test_move_gen_king_simple() {
    for color in [Color::White, Color::Black] {
        let mut b = Board::new();
        b.place(sq(4, 3), Piece::new(color, Kind::King));

        let moves = b.generate_moves(color);
        assert_eq!(8, moves.len());
        assert!(moves.contains(&quiet(sq(4, 3), sq(3, 2))));
        assert!(moves.contains(&quiet(sq(4, 3), sq(4, 2))));
        assert!(moves.contains(&quiet(sq(4, 3), sq(5, 2))));
        assert!(moves.contains(&quiet(sq(4, 3), sq(3, 3))));
        assert!(moves.contains(&quiet(sq(4, 3), sq(5, 3))));
        assert!(moves.contains(&quiet(sq(4, 3), sq(3, 4))));
        assert!(moves.contains(&quiet(sq(4, 3), sq(4, 4))));
        assert!(moves.contains(&quiet(sq(4, 3), sq(5, 4))));
    }
}

#[test]
fn test_move_gen_king_capture_and_blocked() {
    for color in [Color::White, Color::Black] {
        let mut b = Board::new();
        b.place(sq(4, 3), Piece::new(color, Kind::King));
        b.place(sq(3, 3), Piece::new(color, Kind::Pawn));
        b.place(sq(5, 3), Piece::new(color, Kind::Pawn));
        b.place(sq(4, 2), Piece::new(color.other(), Kind::Pawn));
        b.place(sq(4, 4), Piece::new(color.other(), Kind::Pawn));

        let mut moves = Vec::new();
        b.generate_moves_king(&mut moves, color, sq(4, 3));
        assert_eq!(6, moves.len());
        assert!(moves.contains(&quiet(sq(4, 3), sq(3, 2))));
        assert!(moves.contains(&capture(sq(4, 3), sq(4, 2))));
        assert!(moves.contains(&quiet(sq(4, 3), sq(5, 2))));
        assert!(moves.contains(&quiet(sq(4, 3), sq(3, 4))));
        assert!(moves.contains(&capture(sq(4, 3), sq(4, 4))));
        assert!(moves.contains(&quiet(sq(4, 3), sq(5, 4))));
    }
}

#[test]
fn test_move_gen_king_white_castle_kingside() {
    let mut b = Board::new();
    b.place(sq(1, 5), Piece::new(Color::White, Kind::King));
    b.place(sq(1, 8), Piece::new(Color::White, Kind::Rook));

    let mut moves = Vec::new();
    b.generate_moves_king(&mut moves, Color::White, sq(1, 5));
    assert_eq!(6, moves.len());
    assert!(moves.contains(&quiet(sq(1, 5), sq(1, 4))));
    assert!(moves.contains(&quiet(sq(1, 5), sq(2, 4))));
    assert!(moves.contains(&quiet(sq(1, 5), sq(2, 5))));
    assert!(moves.contains(&quiet(sq(1, 5), sq(2, 6))));
    assert!(moves.contains(&quiet(sq(1, 5), sq(1, 6))));
    assert!(moves.contains(&Move::new(sq(1, 5), sq(1, 7), Flags::new(CASTLE_KING))));
}

#[test]
fn test_move_gen_king_white_castle_kingside_no_castle_rights() {
    let mut b = Board::new();
    b.clear_castle_right(Color::White, Side::Kingside);
    b.place(sq(1, 5), Piece::new(Color::White, Kind::King));
    b.place(sq(1, 8), Piece::new(Color::White, Kind::Rook));

    let mut moves = Vec::new();
    b.generate_moves_king(&mut moves, Color::White, sq(1, 5));
    assert_eq!(6, moves.len());
    assert!(moves.contains(&quiet(sq(1, 5), sq(1, 4))));
    assert!(moves.contains(&quiet(sq(1, 5), sq(2, 4))));
    assert!(moves.contains(&quiet(sq(1, 5), sq(2, 5))));
    assert!(moves.contains(&quiet(sq(1, 5), sq(2, 6))));
    assert!(moves.contains(&quiet(sq(1, 5), sq(1, 6))));
}

#[test]
fn test_move_gen_king_black_castle_kingside() {
    let mut b = Board::new();
    b.place(sq(8, 5), Piece::new(Color::Black, Kind::King));
    b.place(sq(8, 8), Piece::new(Color::Black, Kind::Rook));

    let mut moves = Vec::new();
    b.generate_moves_king(&mut moves, Color::Black, sq(8, 5));
    assert_eq!(6, moves.len());
    assert!(moves.contains(&quiet(sq(8, 5), sq(8, 4))));
    assert!(moves.contains(&quiet(sq(8, 5), sq(7, 4))));
    assert!(moves.contains(&quiet(sq(8, 5), sq(7, 5))));
    assert!(moves.contains(&quiet(sq(8, 5), sq(7, 6))));
    assert!(moves.contains(&quiet(sq(8, 5), sq(8, 6))));
    assert!(moves.contains(&Move::new(sq(8, 5), sq(8, 7), Flags::new(CASTLE_KING))));
}

#[test]
fn test_move_gen_king_black_castle_kingside_no_castle_rights() {
    let mut b = Board::new();
    b.clear_castle_right(Color::White, Side::Kingside);
    b.place(sq(8, 5), Piece::new(Color::Black, Kind::King));
    b.place(sq(8, 8), Piece::new(Color::Black, Kind::Rook));

    let mut moves = Vec::new();
    b.generate_moves_king(&mut moves, Color::Black, sq(8, 5));
    assert_eq!(6, moves.len());
    assert!(moves.contains(&quiet(sq(8, 5), sq(8, 4))));
    assert!(moves.contains(&quiet(sq(8, 5), sq(7, 4))));
    assert!(moves.contains(&quiet(sq(8, 5), sq(7, 5))));
    assert!(moves.contains(&quiet(sq(8, 5), sq(7, 6))));
    assert!(moves.contains(&quiet(sq(8, 5), sq(8, 6))));
}

#[test]
fn test_move_gen_pawn_simple() {
    let mut b = Board::new();
    b.place(sq(2, 3), Piece::new(Color::White, Kind::Pawn));

    let moves = b.generate_moves(Color::White);
    assert_eq!(2, moves.len());
    assert!(moves.contains(&quiet(sq(2, 3), sq(3, 3))));
    assert!(moves.contains(&Move::new(sq(2, 3), sq(4, 3), Flags::new(PAWN_SPRINT))));
}

#[test]
fn test_move_gen_pawn_promotion() {
    let mut b = Board::new();
    b.place(sq(7, 3), Piece::new(Color::White, Kind::Pawn));

    let moves = b.generate_moves(Color::White);
    assert_eq!(4, moves.len());
    assert!(moves.contains(&Move::new(sq(7, 3), sq(8, 3), Flags::new(PROMOTION_BISHOP))));
    assert!(moves.contains(&Move::new(sq(7, 3), sq(8, 3), Flags::new(PROMOTION_KNIGHT))));
    assert!(moves.contains(&Move::new(sq(7, 3), sq(8, 3), Flags::new(PROMOTION_QUEEN))));
    assert!(moves.contains(&Move::new(sq(7, 3), sq(8, 3), Flags::new(PROMOTION_ROOK))));
}

#[test]
fn test_move_gen_pawn_promotion_capture() {
    let mut b = Board::new();
    b.place(sq(7, 3), Piece::new(Color::White, Kind::Pawn));
    b.place(sq(8, 4), Piece::new(Color::Black, Kind::Rook));

    let moves = b.generate_moves(Color::White);
    assert_eq!(8, moves.len());
    assert!(moves.contains(&Move::new(sq(7, 3), sq(8, 3), Flags::new(PROMOTION_BISHOP))));
    assert!(moves.contains(&Move::new(sq(7, 3), sq(8, 3), Flags::new(PROMOTION_KNIGHT))));
    assert!(moves.contains(&Move::new(sq(7, 3), sq(8, 3), Flags::new(PROMOTION_QUEEN))));
    assert!(moves.contains(&Move::new(sq(7, 3), sq(8, 3), Flags::new(PROMOTION_ROOK))));
    assert!(moves.contains(&Move::new(sq(7, 3), sq(8, 4), Flags::new(CAPTURE | PROMOTION_BISHOP))));
    assert!(moves.contains(&Move::new(sq(7, 3), sq(8, 4), Flags::new(CAPTURE | PROMOTION_KNIGHT))));
    assert!(moves.contains(&Move::new(sq(7, 3), sq(8, 4), Flags::new(CAPTURE | PROMOTION_QUEEN))));
    assert!(moves.contains(&Move::new(sq(7, 3), sq(8, 4), Flags::new(CAPTURE | PROMOTION_ROOK))));
}

#[test]
fn test_en_passant() {
    let mut b = Board::new();
    b.place(sq(5, 3), Piece::new(Color::White, Kind::Pawn));
    b.place(sq(5, 4), Piece::new(Color::Black, Kind::Pawn));
    b.set_last_move(Some(Move::new(sq(7, 4), sq(5, 4), Flags::new(PAWN_SPRINT))));

    let moves = b.generate_moves(Color::White);
    assert_eq!(2, moves.len());
    assert!(moves.contains(&quiet(sq(5, 3), sq(6, 3))));
    assert!(moves.contains(&Move::new(sq(5, 3), sq(6, 4), Flags::new(EP_CAPTURE))));
}

#[test]
fn test_move_gen_pawn_blocked() {
    let mut b = Board::new();
    b.place(sq(2, 3), Piece::new(Color::White, Kind::Pawn));
    b.place(sq(3, 3), Piece::new(Color::Black, Kind::Pawn));

    let moves = b.generate_moves(Color::White);
    assert_eq!(0, moves.len());
}

#[test]
fn test_move_gen_pawn_sprint_blocked_hostile() {
    let mut b = Board::new();
    b.place(sq(2, 3), Piece::new(Color::White, Kind::Pawn));
    b.place(sq(4, 3), Piece::new(Color::Black, Kind::Pawn));

    let moves = b.generate_moves(Color::White);
    assert_eq!(1, moves.len());
    assert!(moves.contains(&quiet(sq(2, 3), sq(3, 3))));
}

#[test]
fn test_move_gen_pawn_sprint_blocked_friendly() {
    let mut b = Board::new();
    b.place(sq(2, 3), Piece::new(Color::White, Kind::Pawn));
    b.place(sq(4, 3), Piece::new(Color::White, Kind::Pawn));

    let moves = b.generate_moves(Color::White);
    assert_eq!(2, moves.len());
    assert!(moves.contains(&quiet(sq(2, 3), sq(3, 3))));
    assert!(moves.contains(&quiet(sq(4, 3), sq(5, 3))));
}
