use invaders_board::board::{Board, Coordinates};
use invaders_board::bounds::{Bounds2, Point2};
use invaders_board::rat::Rat;

fn test_board() -> Board {
    Board {
        bounds: Bounds2 {
            position: Point2 { x: Rat::from_int(-250), y: Rat::from_int(-400) },
            size: Point2 { x: Rat::from_int(500), y: Rat::from_int(800) },
        },
        entity: 42,
    }
}

#[test]
fn pointer_at_window_offset_maps_into_board() {
    let board = test_board();
    // Window (700, 800), pointer (350, 400): world (0, 0), in bounds,
    // board-local (250, 400).
    let coordinates = board.mouse_position(700, 800, 350, 400);
    match coordinates {
        Some(c) => {
            assert!(c.x.eqv(&Rat::from_int(250)));
            assert!(c.y.eqv(&Rat::from_int(400)));
        },
        None => panic!("expected coordinates for a pointer inside the board"),
    }
}

#[test]
fn pointer_outside_bounds_is_absent() {
    let board = test_board();
    // Pointer (0, 0): world (-350, -400), x below -250.
    assert_eq!(board.mouse_position(700, 800, 0, 0), None);
}

#[test]
fn pointer_on_corner_is_in_bounds() {
    let board = test_board();
    // Pointer (100, 0): world (-250, -400), exactly the lower-left corner.
    let coordinates = board.mouse_position(700, 800, 100, 0);
    match coordinates {
        Some(c) => {
            assert!(c.x.eqv(&Rat::from_int(0)));
            assert!(c.y.eqv(&Rat::from_int(0)));
        },
        None => panic!("a corner point is in bounds: edges are inclusive"),
    }
    // Pointer (600, 800): world (250, 400), exactly the upper-right corner.
    let far = board.mouse_position(700, 800, 600, 800);
    match far {
        Some(c) => {
            assert!(c.x.eqv(&Rat::from_int(500)));
            assert!(c.y.eqv(&Rat::from_int(800)));
        },
        None => panic!("a corner point is in bounds: edges are inclusive"),
    }
}

#[test]
fn pointer_just_past_edge_is_absent() {
    let board = test_board();
    // Pointer (601, 800): world (251, 400), x above 250.
    assert_eq!(board.mouse_position(700, 800, 601, 800), None);
    // Pointer (600, 801): world (250, 401), y above 400.
    assert_eq!(board.mouse_position(700, 800, 600, 801), None);
}

#[test]
fn odd_window_size_halves_exactly() {
    let board = test_board();
    // Window (701, 800), pointer (350, 400): world (-1/2, 0).
    let coordinates = board.mouse_position(701, 800, 350, 400);
    match coordinates {
        Some(c) => {
            // Board-local: -1/2 - (-250) = 499/2.
            assert!(c.x.eqv(&Rat::new(499, 2)));
            assert!(c.y.eqv(&Rat::from_int(400)));
        },
        None => panic!("expected coordinates for a pointer inside the board"),
    }
}

#[test]
fn in_bounds_is_inclusive_on_all_edges() {
    let bounds = test_board().bounds;
    let on_left = Point2 { x: Rat::from_int(-250), y: Rat::from_int(0) };
    let on_right = Point2 { x: Rat::from_int(250), y: Rat::from_int(0) };
    let on_bottom = Point2 { x: Rat::from_int(0), y: Rat::from_int(-400) };
    let on_top = Point2 { x: Rat::from_int(0), y: Rat::from_int(400) };
    assert!(bounds.in_bounds(&on_left));
    assert!(bounds.in_bounds(&on_right));
    assert!(bounds.in_bounds(&on_bottom));
    assert!(bounds.in_bounds(&on_top));
    let past_left = Point2 { x: Rat::new(-250_001, 1000), y: Rat::from_int(0) };
    assert!(!bounds.in_bounds(&past_left));
}

#[test]
fn mapper_result_carries_exact_rationals() {
    let board = test_board();
    let coordinates = board.mouse_position(700, 800, 350, 400);
    assert_eq!(
        coordinates,
        Some(Coordinates { x: Rat { num: 500, den: 2 }, y: Rat { num: 800, den: 2 } })
    );
}

#[test]
fn rational_comparisons_are_exact() {
    let half = Rat::new(1, 2);
    let two_quarters = Rat::new(2, 4);
    let third = Rat::new(1, 3);
    assert!(half.eqv(&two_quarters));
    assert!(!half.eqv(&third));
    assert!(third.le(&half));
    assert!(!half.le(&third));
    assert!(half.le(&two_quarters));
}
