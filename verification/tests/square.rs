use libchess::Square;

fn sq(row: u8, col: u8) -> Square {
    Square::from_coordinates(row, col)
}

#[test]
fn test_from_coordinates() {
    assert_eq!(Square { idx: 0 }, sq(1, 1));
    assert_eq!(Square { idx: 1 }, sq(1, 2));
    assert_eq!(Square { idx: 2 }, sq(1, 3));
    assert_eq!(Square { idx: 3 }, sq(1, 4));
    assert_eq!(Square { idx: 4 }, sq(1, 5));
    assert_eq!(Square { idx: 5 }, sq(1, 6));
    assert_eq!(Square { idx: 6 }, sq(1, 7));
    assert_eq!(Square { idx: 7 }, sq(1, 8));

    assert_eq!(Square { idx: 24 }, sq(4, 1));
    assert_eq!(Square { idx: 25 }, sq(4, 2));
    assert_eq!(Square { idx: 26 }, sq(4, 3));
    assert_eq!(Square { idx: 27 }, sq(4, 4));
    assert_eq!(Square { idx: 28 }, sq(4, 5));
    assert_eq!(Square { idx: 29 }, sq(4, 6));
    assert_eq!(Square { idx: 30 }, sq(4, 7));
    assert_eq!(Square { idx: 31 }, sq(4, 8));

    assert_eq!(Square { idx: 56 }, sq(8, 1));
    assert_eq!(Square { idx: 57 }, sq(8, 2));
    assert_eq!(Square { idx: 58 }, sq(8, 3));
    assert_eq!(Square { idx: 59 }, sq(8, 4));
    assert_eq!(Square { idx: 60 }, sq(8, 5));
    assert_eq!(Square { idx: 61 }, sq(8, 6));
    assert_eq!(Square { idx: 62 }, sq(8, 7));
    assert_eq!(Square { idx: 63 }, sq(8, 8));
}

#[test]
fn test_row() {
    assert_eq!(1, sq(1, 1).rank());
    assert_eq!(1, sq(1, 2).rank());
    assert_eq!(1, sq(1, 3).rank());
    assert_eq!(1, sq(1, 4).rank());
    assert_eq!(1, sq(1, 5).rank());
    assert_eq!(1, sq(1, 6).rank());
    assert_eq!(1, sq(1, 7).rank());
    assert_eq!(1, sq(1, 8).rank());
}

#[test]
fn test_col() {
    assert_eq!(1, sq(1, 1).file());
    assert_eq!(1, sq(2, 1).file());
    assert_eq!(1, sq(3, 1).file());
    assert_eq!(1, sq(4, 1).file());
    assert_eq!(1, sq(5, 1).file());
    assert_eq!(1, sq(6, 1).file());
    assert_eq!(1, sq(7, 1).file());
    assert_eq!(1, sq(8, 1).file());
}
