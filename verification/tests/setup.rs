use libchess::default_setup;
use libchess::{Board, Color, Kind, Piece, Square};

fn sq(row: u8, col: u8) -> Square {
    Square::from_coordinates(row, col)
}

#[test]
fn default_setup_works() {
    let mut b = Board::new();
    b.populate(&default_setup());

    assert_eq!(Some(Piece::new(Color::White, Kind::Rook)), b.piece_at(sq(1, 1)));
    assert_eq!(Some(Piece::new(Color::White, Kind::Knight)), b.piece_at(sq(1, 2)));
    assert_eq!(Some(Piece::new(Color::White, Kind::Bishop)), b.piece_at(sq(1, 3)));
    assert_eq!(Some(Piece::new(Color::White, Kind::Queen)), b.piece_at(sq(1, 4)));
    assert_eq!(Some(Piece::new(Color::White, Kind::King)), b.piece_at(sq(1, 5)));
    assert_eq!(Some(Piece::new(Color::White, Kind::Bishop)), b.piece_at(sq(1, 6)));
    assert_eq!(Some(Piece::new(Color::White, Kind::Knight)), b.piece_at(sq(1, 7)));
    assert_eq!(Some(Piece::new(Color::White, Kind::Rook)), b.piece_at(sq(1, 8)));
    for col in 1..=8u8 {
        assert_eq!(Some(Piece::new(Color::White, Kind::Pawn)), b.piece_at(sq(2, col)));
    }

    assert_eq!(Some(Piece::new(Color::Black, Kind::Rook)), b.piece_at(sq(8, 1)));
    assert_eq!(Some(Piece::new(Color::Black, Kind::Knight)), b.piece_at(sq(8, 2)));
    assert_eq!(Some(Piece::new(Color::Black, Kind::Bishop)), b.piece_at(sq(8, 3)));
    assert_eq!(Some(Piece::new(Color::Black, Kind::Queen)), b.piece_at(sq(8, 4)));
    assert_eq!(Some(Piece::new(Color::Black, Kind::King)), b.piece_at(sq(8, 5)));
    assert_eq!(Some(Piece::new(Color::Black, Kind::Bishop)), b.piece_at(sq(8, 6)));
    assert_eq!(Some(Piece::new(Color::Black, Kind::Knight)), b.piece_at(sq(8, 7)));
    assert_eq!(Some(Piece::new(Color::Black, Kind::Rook)), b.piece_at(sq(8, 8)));
    for col in 1..=8u8 {
        assert_eq!(Some(Piece::new(Color::Black, Kind::Pawn)), b.piece_at(sq(7, col)));
    }
}
