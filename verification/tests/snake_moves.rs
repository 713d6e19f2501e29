use battlesnake::grid::{Coord, Move};
use battlesnake::state::{Battlesnake, Board};
use battlesnake::transition::{contains_coord, move_snake};

fn test_get_battlesnake_with_health(health: u32) -> Battlesnake {
    Battlesnake {
        id: "you".to_string(),
        name: "you".to_string(),
        health,
        body: vec![
            Coord { x: 1, y: 0 },
            Coord { x: 1, y: 1 },
            Coord { x: 1, y: 2 },
            Coord { x: 2, y: 2 },
            Coord { x: 2, y: 1 },
            Coord { x: 2, y: 0 },
        ],
        head: Coord { x: 1, y: 0 },
        length: 6,
        latency: "100".to_string(),
        shout: None,
    }
}

fn board_with_food(food: Vec<Coord>) -> Board {
    Board { height: 11, width: 11, food, snakes: vec![], hazards: vec![] }
}

#[test]
fn test_move_no_food_right() {
    let you = test_get_battlesnake_with_health(40);

    let expected = Battlesnake {
        id: "you".to_string(),
        name: "you".to_string(),
        health: 39,
        body: vec![
            Coord { x: 2, y: 0 },
            Coord { x: 1, y: 0 },
            Coord { x: 1, y: 1 },
            Coord { x: 1, y: 2 },
            Coord { x: 2, y: 2 },
            Coord { x: 2, y: 1 },
        ],
        head: Coord { x: 2, y: 0 },
        length: 6,
        latency: "100".to_string(),
        shout: None,
    };

    let board = Board {
        height: 11,
        width: 11,
        food: vec![],
        snakes: vec![test_get_battlesnake_with_health(40)],
        hazards: vec![],
    };

    let new_snake = move_snake(&board, &you, &Move::Right);

    assert_eq!(new_snake, expected)
}

#[test]
fn test_move_with_food_left() {
    let you = test_get_battlesnake_with_health(100);

    let expected = Battlesnake {
        id: "you".to_string(),
        name: "you".to_string(),
        health: 99,
        body: vec![
            Coord { x: 0, y: 0 },
            Coord { x: 1, y: 0 },
            Coord { x: 1, y: 1 },
            Coord { x: 1, y: 2 },
            Coord { x: 2, y: 2 },
            Coord { x: 2, y: 1 },
            Coord { x: 2, y: 0 },
        ],
        head: Coord { x: 0, y: 0 },
        length: 7,
        latency: "100".to_string(),
        shout: None,
    };

    let board = Board {
        height: 11,
        width: 11,
        food: vec![Coord { x: 1, y: 0 }],
        snakes: vec![test_get_battlesnake_with_health(100)],
        hazards: vec![],
    };

    let new_snake = move_snake(&board, &you, &Move::Left);

    assert_eq!(new_snake, expected)
}

#[test]
fn move_leaves_its_inputs_alone() {
    let you = test_get_battlesnake_with_health(40);
    let board = board_with_food(vec![Coord { x: 0, y: 0 }]);
    let _ = move_snake(&board, &you, &Move::Left);
    assert_eq!(you, test_get_battlesnake_with_health(40));
    assert_eq!(board, board_with_food(vec![Coord { x: 0, y: 0 }]));
}

#[test]
fn move_onto_food_restores_health_and_keeps_length() {
    let you = test_get_battlesnake_with_health(40);
    let board = board_with_food(vec![Coord { x: 0, y: 0 }]);
    let next = move_snake(&board, &you, &Move::Left);
    assert_eq!(next.health, 100);
    assert_eq!(next.length, 6);
    assert_eq!(next.body.len(), 6);
    assert_eq!(next.head, Coord { x: 0, y: 0 });
    assert_eq!(next.body[0], Coord { x: 0, y: 0 });
    assert_eq!(next.body[5], Coord { x: 2, y: 1 });
}

#[test]
fn full_health_snake_on_food_grows_by_one() {
    let you = test_get_battlesnake_with_health(100);
    let board = board_with_food(vec![Coord { x: 0, y: 0 }]);
    let next = move_snake(&board, &you, &Move::Left);
    assert_eq!(next.health, 100);
    assert_eq!(next.length, 7);
    assert_eq!(next.body.len(), 7);
    assert_eq!(next.body[6], Coord { x: 2, y: 0 });
}

#[test]
fn growth_comes_one_move_after_eating() {
    let you = test_get_battlesnake_with_health(40);
    let board = board_with_food(vec![Coord { x: 0, y: 0 }]);
    let fed = move_snake(&board, &you, &Move::Left);
    assert_eq!(fed.length, 6);
    let grown = move_snake(&board, &fed, &Move::Up);
    assert_eq!(grown.length, 7);
    assert_eq!(grown.body.len(), 7);
    assert_eq!(grown.health, 99);
    let after = move_snake(&board, &grown, &Move::Up);
    assert_eq!(after.length, 7);
    assert_eq!(after.health, 98);
}

#[test]
fn health_does_not_fall_below_zero() {
    let you = test_get_battlesnake_with_health(0);
    let next = move_snake(&board_with_food(vec![]), &you, &Move::Right);
    assert_eq!(next.health, 0);
    let one = test_get_battlesnake_with_health(1);
    assert_eq!(move_snake(&board_with_food(vec![]), &one, &Move::Right).health, 0);
}

#[test]
fn move_in_each_direction() {
    let mut you = test_get_battlesnake_with_health(40);
    you.head = Coord { x: 5, y: 5 };
    you.body[0] = Coord { x: 5, y: 5 };
    let board = board_with_food(vec![]);
    assert_eq!(move_snake(&board, &you, &Move::Up).head, Coord { x: 5, y: 6 });
    assert_eq!(move_snake(&board, &you, &Move::Down).head, Coord { x: 5, y: 4 });
    assert_eq!(move_snake(&board, &you, &Move::Left).head, Coord { x: 4, y: 5 });
    assert_eq!(move_snake(&board, &you, &Move::Right).head, Coord { x: 6, y: 5 });
}

#[test]
fn move_may_leave_the_board() {
    let mut you = test_get_battlesnake_with_health(40);
    you.head = Coord { x: 10, y: 10 };
    you.body[0] = Coord { x: 10, y: 10 };
    let next = move_snake(&board_with_food(vec![]), &you, &Move::Up);
    assert_eq!(next.head, Coord { x: 10, y: 11 });
}

#[test]
fn step_saturates_at_the_ends_of_the_coordinate_range() {
    let origin = Coord { x: 0, y: 0 };
    assert_eq!(origin.shifted(Move::Down), origin);
    assert_eq!(origin.shifted(Move::Left), origin);
    let far = Coord { x: u32::MAX, y: u32::MAX };
    assert_eq!(far.shifted(Move::Up), far);
    assert_eq!(far.shifted(Move::Right), far);
    assert_eq!(origin.shifted(Move::Up), Coord { x: 0, y: 1 });
    assert_eq!(origin.shifted(Move::Right), Coord { x: 1, y: 0 });
}

#[test]
fn length_counter_saturates() {
    let mut you = test_get_battlesnake_with_health(100);
    you.length = u32::MAX;
    let next = move_snake(&board_with_food(vec![]), &you, &Move::Left);
    assert_eq!(next.length, u32::MAX);
    assert_eq!(next.body.len(), 7);
}

#[test]
fn shout_is_dropped_by_a_move() {
    let mut you = test_get_battlesnake_with_health(40);
    you.shout = Some("hiss".to_string());
    let next = move_snake(&board_with_food(vec![]), &you, &Move::Right);
    assert_eq!(next.shout, None);
    assert_eq!(next.id, "you");
    assert_eq!(next.latency, "100");
}

#[test]
fn contains_coord_finds_cells() {
    let cells = vec![Coord { x: 1, y: 2 }, Coord { x: 3, y: 4 }];
    assert!(contains_coord(&cells, Coord { x: 3, y: 4 }));
    assert!(!contains_coord(&cells, Coord { x: 4, y: 3 }));
    assert!(!contains_coord(&Vec::new(), Coord { x: 0, y: 0 }));
}

#[test]
fn a_step_off_the_coordinate_range_eats_nothing() {
    let you = Battlesnake {
        id: "you".to_string(),
        name: "you".to_string(),
        health: 40,
        body: vec![Coord { x: 5, y: 0 }, Coord { x: 5, y: 1 }, Coord { x: 5, y: 2 }],
        head: Coord { x: 5, y: 0 },
        length: 3,
        latency: "100".to_string(),
        shout: None,
    };
    let board = board_with_food(vec![Coord { x: 5, y: 0 }]);
    let next = move_snake(&board, &you, &Move::Down);
    assert_eq!(next.health, 39);
    assert_eq!(next.head, Coord { x: 5, y: 0 });
    assert_eq!(next.length, 3);

    let mut far = you.clone();
    far.head = Coord { x: u32::MAX, y: 7 };
    far.body[0] = far.head;
    let board = board_with_food(vec![Coord { x: u32::MAX, y: 7 }]);
    assert_eq!(move_snake(&board, &far, &Move::Right).health, 39);
    assert_eq!(move_snake(&board_with_food(vec![Coord { x: u32::MAX, y: 8 }]), &far, &Move::Up).health, 100);
}

#[test]
fn can_step_tells_the_ends_of_the_range() {
    let origin = Coord { x: 0, y: 0 };
    assert!(!origin.can_step(Move::Down));
    assert!(!origin.can_step(Move::Left));
    assert!(origin.can_step(Move::Up));
    assert!(origin.can_step(Move::Right));
    let far = Coord { x: u32::MAX, y: u32::MAX };
    assert!(!far.can_step(Move::Up));
    assert!(!far.can_step(Move::Right));
    assert!(far.can_step(Move::Down));
    assert!(far.can_step(Move::Left));
}
