use libchess::default_setup;
use libchess::moves::PAWN_SPRINT;
use libchess::{Board, Color, Flags, Kind, Move, Piece, Square};

fn sq(row: u8, col: u8) -> Square {
    Square::from_coordinates(row, col)
}

#[test]
fn test_make_unmake_default_setup() {
    let mut b = Board::new();
    b.populate(&default_setup());

    let moves = b.generate_moves(Color::White);
    assert_eq!(20, moves.len());

    for mov in moves {
        let original = b.clone();

        let res = b.make_move(mov);
        b.unmake_move(res);
        assert_eq!(original, b);
    }
}

#[test]
fn test_make_unmake_capture() {
    let mut b = Board::new();
    b.place(sq(4, 3), Piece::new(Color::White, Kind::Pawn));
    b.place(sq(5, 4), Piece::new(Color::Black, Kind::Pawn));

    for color in [Color::White, Color::Black] {
        let moves = b.generate_moves(color);
        assert_eq!(2, moves.len());

        for mov in moves {
            let original = b.clone();

            let res = b.make_move(mov);
            b.unmake_move(res);
            assert_eq!(original, b);
        }
    }
}

#[test]
fn test_make_move_simple() {
    let mut b = Board::new();
    b.place(sq(2, 2), Piece::new(Color::White, Kind::Pawn));
    assert_eq!(None, b.last_move());
    assert_eq!(Some(Piece::new(Color::White, Kind::Pawn)), b.piece_at(sq(2, 2)));
    assert_eq!(None, b.piece_at(sq(4, 2)));

    let test_move = Move::new(sq(2, 2), sq(4, 2), Flags::new(PAWN_SPRINT));
    let _ = b.make_move(test_move.clone());
}

#[test]
fn test_pieces_with_position() {
    let mut b = Board::new();
    b.place(sq(5, 1), Piece::new(Color::White, Kind::Rook));

    let pieces = b.pieces_with_position();
    assert_eq!(1, pieces.len());
    assert!(pieces.contains(&(sq(5, 1), Piece::new(Color::White, Kind::Rook))));
}

#[test]
fn test_pieces_with_position_full_board() {
    let mut b = Board::new();
    for idx in 0..64u8 {
        b.place(Square { idx }, Piece::new(Color::Black, Kind::Pawn));
    }

    let pieces = b.pieces_with_position();
    assert_eq!(64, pieces.len());
    for idx in 0..64u8 {
        assert!(pieces.contains(&(Square { idx }, Piece::new(Color::Black, Kind::Pawn))));
    }
}
