use copperhead::grid::Cell;
use copperhead::snake::{Direction, Snake};

#[test]
fn move_misses_food_keeps_length() {
    let mut s = Snake {
        body: vec![
            Cell { x: 10, y: 10 },
            Cell { x: 9, y: 10 },
            Cell { x: 8, y: 10 },
        ],
        dir: Direction::Right,
        grow_on_next: false,
    };
    let ate = s.update(Cell { x: 99, y: 99 });
    assert!(!ate);
    assert_eq!(
        s.body,
        vec![
            Cell { x: 11, y: 10 },
            Cell { x: 10, y: 10 },
            Cell { x: 9, y: 10 },
        ]
    );
}

#[test]
fn eat_then_grow_on_next_tick() {
    let mut s = Snake {
        body: vec![
            Cell { x: 10, y: 10 },
            Cell { x: 9, y: 10 },
            Cell { x: 8, y: 10 },
        ],
        dir: Direction::Right,
        grow_on_next: false,
    };
    let ate = s.update(Cell { x: 11, y: 10 });
    assert!(ate);
    assert_eq!(
        s.body,
        vec![
            Cell { x: 11, y: 10 },
            Cell { x: 10, y: 10 },
            Cell { x: 9, y: 10 },
        ]
    );
    s.grow();
    let ate2 = s.update(Cell { x: 99, y: 99 });
    assert!(!ate2);
    assert_eq!(
        s.body,
        vec![
            Cell { x: 12, y: 10 },
            Cell { x: 11, y: 10 },
            Cell { x: 10, y: 10 },
            Cell { x: 9, y: 10 },
        ]
    );
}

#[test]
fn reversal_rejected_other_turn_accepted() {
    let mut s = Snake::new();
    assert_eq!(s.dir, Direction::Right);
    s.set_heading(Direction::Left);
    assert_eq!(s.dir, Direction::Right);
    s.set_heading(Direction::Up);
    assert_eq!(s.dir, Direction::Up);
}

#[test]
fn no_reversal_from_any_heading() {
    let pairs = [
        (Direction::Up, Direction::Down),
        (Direction::Down, Direction::Up),
        (Direction::Left, Direction::Right),
        (Direction::Right, Direction::Left),
    ];
    for &(held, reverse) in pairs.iter() {
        let mut s = Snake::new();
        s.dir = held;
        s.set_heading(reverse);
        assert_eq!(s.dir, held);
    }
}

#[test]
fn non_reversing_headings_accepted() {
    let mut s = Snake::new();
    s.dir = Direction::Up;
    s.set_heading(Direction::Left);
    assert_eq!(s.dir, Direction::Left);
    s.set_heading(Direction::Down);
    assert_eq!(s.dir, Direction::Down);
    s.set_heading(Direction::Down);
    assert_eq!(s.dir, Direction::Down);
}

#[test]
fn movement_is_deterministic() {
    let make = || Snake {
        body: vec![
            Cell { x: 4, y: 7 },
            Cell { x: 4, y: 8 },
            Cell { x: 5, y: 8 },
        ],
        dir: Direction::Up,
        grow_on_next: true,
    };
    let mut a = make();
    let mut b = make();
    let food = Cell { x: 4, y: 6 };
    let ate_a = a.update(food);
    let ate_b = b.update(food);
    assert_eq!(ate_a, ate_b);
    assert_eq!(a.body, b.body);
    assert_eq!(a.grow_on_next, b.grow_on_next);
}

#[test]
fn growth_lags_by_one_tick() {
    let mut s = Snake::new();
    assert_eq!(s.body.len(), 3);
    s.grow();
    assert_eq!(s.body.len(), 3);
    s.update(Cell { x: 99, y: 99 });
    assert_eq!(s.body.len(), 4);
    s.update(Cell { x: 99, y: 99 });
    assert_eq!(s.body.len(), 4);
}

#[test]
fn head_is_front_of_body() {
    let s = Snake {
        body: vec![
            Cell { x: 3, y: 4 },
            Cell { x: 2, y: 4 },
            Cell { x: 1, y: 4 },
        ],
        dir: Direction::Right,
        grow_on_next: false,
    };
    assert_eq!(s.head(), Cell { x: 3, y: 4 });
}

#[test]
fn self_collision_found_behind_head() {
    let s = Snake {
        body: vec![
            Cell { x: 5, y: 5 },
            Cell { x: 5, y: 6 },
            Cell { x: 5, y: 5 },
        ],
        dir: Direction::Up,
        grow_on_next: false,
    };
    assert!(s.self_collision());
    let fresh = Snake::new();
    assert!(!fresh.self_collision());
}

#[test]
fn new_snake_centered_heading_right() {
    let s = Snake::new();
    assert_eq!(
        s.body,
        vec![
            Cell { x: 10, y: 10 },
            Cell { x: 9, y: 10 },
            Cell { x: 8, y: 10 },
        ]
    );
    assert_eq!(s.dir, Direction::Right);
    assert!(!s.grow_on_next);
}
