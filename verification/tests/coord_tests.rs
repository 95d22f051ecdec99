use chess_tui::game_logic::coord::{Coord, MoveDirection};
use shakmaty::Square;

fn to_square(coord: Coord) -> Square {
    Square::new(coord.to_square_index() as u32)
}

fn from_square(square: Square) -> Coord {
    Coord::from_square_index(square as u8)
}

#[test]
fn test_coord_square_conversion() {
    let coord = Coord::new(4, 4);
    let square: Square = to_square(coord);
    let back = from_square(square);
    assert_eq!(coord, back);
}

#[test]
fn test_all_coord_combinations_yield_some_square() {
    for r in 0..=255 {
        for c in 0..=255 {
            let coord = Coord::new(r, c);
            let square: Square = to_square(coord);
            let coord: Coord = from_square(square);

            assert!(coord.row() <= 7);
            assert!(coord.col() <= 7);
        }
    }
}

#[test]
fn test_specific_chess_mappings() {
    let a8_coord = Coord::new(0, 0);
    assert_eq!(to_square(a8_coord), Square::A8, "Coord(0,0) should be A8 (56)");
    let h8_coord = Coord::new(0, 7);
    assert_eq!(to_square(h8_coord), Square::H8, "Coord(0,7) should be H8 (63)");
    let a1_coord = Coord::new(7, 0);
    assert_eq!(to_square(a1_coord), Square::A1, "Coord(7,0) should be A1 (0)");
    let h1_coord = Coord::new(7, 7);
    assert_eq!(to_square(h1_coord), Square::H1, "Coord(7,7) should be H1 (7)");
}

#[test]
fn test_new_clamping() {
    let coord = Coord::new(10, 255);
    assert!(coord.row() <= 7);
    assert!(coord.col() <= 7);
    assert_eq!(coord.row(), 7);
    assert_eq!(coord.col(), 7);
}

#[test]
fn test_move_boundaries_up_left() {
    let mut coord = Coord::new(0, 0);
    coord.move_to(MoveDirection::Up);
    coord.move_to(MoveDirection::Left);
    assert_eq!(coord.row(), 0);
    assert_eq!(coord.col(), 0);
}

#[test]
fn test_move_boundaries_down_right() {
    let mut coord = Coord::new(7, 7);
    coord.move_to(MoveDirection::Down);
    coord.move_to(MoveDirection::Right);
    assert_eq!(coord.row(), 7);
    assert_eq!(coord.col(), 7);
}

#[test]
fn test_reverse_is_always_valid() {
    let coord_min = Coord::new(0, 0).reverse();
    let coord_max = Coord::new(7, 7).reverse();
    assert_eq!(coord_min.row(), 7);
    assert_eq!(coord_min.col(), 7);
    assert_eq!(coord_max.row(), 0);
    assert_eq!(coord_max.col(), 0);
}

#[test]
fn test_sequence_of_moves() {
    let mut coord = Coord::new(5, 5);
    for _ in 0..10 {
        coord.move_to(MoveDirection::Right);
        coord.move_to(MoveDirection::Down);
    }
    assert!(coord.row() <= 7);
    assert!(coord.col() <= 7);
    assert_eq!(coord.row(), 7);
    assert_eq!(coord.col(), 7);
}

#[test]
fn square_indices_round_trip() {
    for i in 0u8..64 {
        assert_eq!(Coord::from_square_index(i).to_square_index(), i);
    }
    let c = Coord::from_square_index(12); // e2
    assert_eq!((c.row(), c.col()), (6, 4));
    assert_eq!(Coord::default(), Coord::new(4, 4));
    let mut m = Coord::new(3, 3);
    m.move_to(MoveDirection::Up);
    assert_eq!((m.row(), m.col()), (2, 3));
    assert_eq!(Coord::new(2, 5).reverse().reverse(), Coord::new(2, 5));
}
