use std::time::Instant;

use battlesnake::grid::{Coord, Move};
use battlesnake::moves::available_moves;
use battlesnake::score::score_position;
use battlesnake::search::{maximise, maximise_on_readings, Search};
use battlesnake::state::{Battlesnake, Board};
use battlesnake::transition::move_snake;

fn cells(list: &[(u32, u32)]) -> Vec<Coord> {
    list.iter().map(|&(x, y)| Coord { x, y }).collect()
}

const DOUBLE_TAIL_BODY: [(u32, u32); 21] = [
    (1, 2), (1, 1), (1, 0), (2, 0), (2, 1), (3, 1), (3, 0), (4, 0), (4, 1), (4, 2), (3, 2),
    (3, 3), (4, 3), (4, 4), (3, 4), (2, 4), (2, 3), (1, 3), (1, 4), (0, 4), (0, 3),
];

fn double_tail_snake() -> Battlesnake {
    Battlesnake {
        id: "4bcd1e18-c05c-43d6-98fa-2a6b5eea9a2a".to_owned(),
        name: "Rust Starter Project".to_owned(),
        health: 100,
        body: cells(&DOUBLE_TAIL_BODY),
        head: Coord { x: 1, y: 2 },
        length: 21,
        latency: "3".to_owned(),
        shout: None,
    }
}

fn double_tail_board() -> Board {
    Board {
        height: 5,
        width: 5,
        food: vec![Coord { x: 0, y: 0 }, Coord { x: 2, y: 2 }],
        snakes: vec![double_tail_snake()],
        hazards: vec![],
    }
}

const SHOULDNT_EAT_BODY: [(u32, u32); 21] = [
    (1, 1), (1, 2), (0, 2), (0, 3), (0, 4), (1, 4), (1, 3), (2, 3), (2, 4), (3, 4), (4, 4),
    (4, 3), (4, 2), (4, 1), (4, 0), (3, 0), (3, 1), (3, 2), (2, 2), (2, 1), (2, 0),
];

fn shouldnt_eat_snake() -> Battlesnake {
    Battlesnake {
        id: "5b08e492-e453-42c5-94c1-8e56277126c8".to_owned(),
        name: "Rust Starter Project".to_owned(),
        health: 64,
        body: cells(&SHOULDNT_EAT_BODY),
        head: Coord { x: 1, y: 1 },
        length: 21,
        latency: "5".to_owned(),
        shout: None,
    }
}

fn shouldnt_eat_board() -> Board {
    Board {
        height: 5,
        width: 5,
        food: vec![Coord { x: 0, y: 0 }, Coord { x: 0, y: 1 }, Coord { x: 3, y: 3 }],
        snakes: vec![shouldnt_eat_snake()],
        hazards: vec![],
    }
}

#[test]
fn test_double_tail() {
    let board = double_tail_board();
    let you = double_tail_snake();

    let start = Instant::now();
    let left_moved_snake = move_snake(&board, &you, &Move::Left);
    println!("left_moved_snake {:?}", left_moved_snake);

    let right_moved_snake = move_snake(&board, &you, &Move::Right);
    println!("right_moved_snake {:?}", right_moved_snake);

    println!(
        "maximise_left: {}",
        maximise(&board, &left_moved_snake, &start, 200000)
    );
    println!(
        "maximise_right: {}",
        maximise(&board, &right_moved_snake, &start, 200000)
    );
}

#[test]
fn test_shouldn_eat() {
    let board = shouldnt_eat_board();
    let you = shouldnt_eat_snake();

    let start_time = Instant::now();
    println!(
        "score for move_left {}",
        maximise(
            &board,
            &move_snake(&board, &you, &Move::Left),
            &start_time,
            20000,
        )
    );
    println!(
        "score for move_down {}",
        maximise(
            &board,
            &move_snake(&board, &you, &Move::Down),
            &start_time,
            20000,
        )
    );
}

#[test]
fn exhaustive_search_values() {
    let board = double_tail_board();
    let you = double_tail_snake();
    let start = Instant::now();
    let left = move_snake(&board, &you, &Move::Left);
    let right = move_snake(&board, &you, &Move::Right);
    assert_eq!(maximise(&board, &left, &start, 200000), 143);
    assert_eq!(maximise(&board, &right, &start, 200000), i32::MIN);

    let board = shouldnt_eat_board();
    let you = shouldnt_eat_snake();
    let start = Instant::now();
    assert_eq!(maximise(&board, &move_snake(&board, &you, &Move::Left), &start, 20000), 27);
    assert_eq!(maximise(&board, &move_snake(&board, &you, &Move::Down), &start, 20000), 179);
}

#[test]
fn no_budget_gives_the_score_of_the_start() {
    let board = double_tail_board();
    let left = move_snake(&board, &double_tail_snake(), &Move::Left);
    let start = Instant::now();
    assert_eq!(maximise(&board, &left, &start, 0), 4);
}

#[test]
fn lost_start_is_not_searched() {
    let board = double_tail_board();
    let right = move_snake(&board, &double_tail_snake(), &Move::Right);
    let search = Search::start(&board, &right);
    assert_eq!(search.best(), i32::MIN);
    assert!(search.is_exhausted());
}

fn best_after(board: &Board, you: &Battlesnake, steps: usize) -> i32 {
    let mut search = Search::start(board, you);
    for _ in 0..steps {
        search.advance(board, 0, 1);
    }
    search.best()
}

#[test]
fn best_after_given_numbers_of_steps() {
    let board = double_tail_board();
    let left = move_snake(&board, &double_tail_snake(), &Move::Left);
    assert_eq!(best_after(&board, &left, 0), 4);
    assert_eq!(best_after(&board, &left, 3), 4);
    assert_eq!(best_after(&board, &left, 5), 5);
    assert_eq!(best_after(&board, &left, 10), 9);
    assert_eq!(best_after(&board, &left, 50), 30);
    assert_eq!(best_after(&board, &left, 100), 39);
    assert_eq!(best_after(&board, &left, 1000), 93);
    assert_eq!(best_after(&board, &left, 2201), 143);
    assert_eq!(best_after(&board, &left, 3000), 143);
}

#[test]
fn more_steps_never_lower_the_best() {
    let board = double_tail_board();
    let left = move_snake(&board, &double_tail_snake(), &Move::Left);
    let mut search = Search::start(&board, &left);
    let mut previous = search.best();
    let mut steps = 0;
    while !search.is_exhausted() {
        assert!(search.advance(&board, 0, 1));
        assert!(search.best() >= previous);
        previous = search.best();
        steps += 1;
    }
    assert_eq!(steps, 2201);
    assert_eq!(previous, 143);
}

#[test]
fn advance_stops_when_time_is_up_or_nothing_waits() {
    let board = double_tail_board();
    let left = move_snake(&board, &double_tail_snake(), &Move::Left);
    let mut search = Search::start(&board, &left);
    assert!(!search.advance(&board, 5, 5));
    assert!(!search.advance(&board, 6, 5));
    assert_eq!(search.best(), 4);
    assert!(search.advance(&board, 4, 5));

    let right = move_snake(&board, &double_tail_snake(), &Move::Right);
    let mut lost = Search::start(&board, &right);
    assert!(!lost.advance(&board, 0, 5));
    lost.expand_next(&board);
    assert_eq!(lost.best(), i32::MIN);
}

#[test]
fn search_on_an_open_board() {
    let board = Board { height: 11, width: 11, food: vec![], snakes: vec![], hazards: vec![] };
    let you = Battlesnake {
        id: "you".to_owned(),
        name: "you".to_owned(),
        health: 90,
        body: cells(&[(5, 0), (5, 1), (5, 2)]),
        head: Coord { x: 5, y: 0 },
        length: 3,
        latency: "0".to_owned(),
        shout: None,
    };
    assert_eq!(best_after(&board, &you, 0), 4);
    assert_eq!(best_after(&board, &you, 1), 5);
    assert_eq!(best_after(&board, &you, 2), 5);
    assert_eq!(best_after(&board, &you, 3), 8);
    assert_eq!(best_after(&board, &you, 10), 9);
}

#[test]
fn larger_budget_never_scores_less_on_the_same_clock() {
    let board = double_tail_board();
    let left = move_snake(&board, &double_tail_snake(), &Move::Left);
    let readings: Vec<u128> = (0..3000).collect();
    let budgets: [u128; 9] = [0, 3, 5, 10, 50, 100, 1000, 2201, 5000];
    let expected = [4, 4, 5, 9, 30, 39, 93, 143, 143];
    let mut previous = i32::MIN;
    for (budget, want) in budgets.iter().zip(expected) {
        let best = maximise_on_readings(&board, &left, &readings, *budget);
        assert_eq!(best, want);
        assert!(best >= previous);
        previous = best;
    }
}

#[test]
fn replayed_search_stops_at_the_first_late_reading() {
    let board = double_tail_board();
    let left = move_snake(&board, &double_tail_snake(), &Move::Left);
    let readings: Vec<u128> = vec![0, 1, 2, 3, 4, 9, 1, 1, 1, 1, 1, 1];
    assert_eq!(maximise_on_readings(&board, &left, &readings, 5), 5);
    assert_eq!(maximise_on_readings(&board, &left, &readings, 9), 5);
    assert_eq!(maximise_on_readings(&board, &left, &readings, 10), 11);
    assert_eq!(maximise_on_readings(&board, &left, &Vec::new(), 10), 4);
}

fn best_below(board: &Board, you: &Battlesnake, turn: u32) -> i32 {
    let score = score_position(board, you);
    let mut best = score.saturating_add(turn as i32);
    if score != i32::MIN {
        for mv in available_moves(board, you) {
            best = best.max(best_below(board, &move_snake(board, you, &mv), turn + 1));
        }
    }
    best
}

#[test]
fn finished_search_finds_the_best_of_all_reachable_positions() {
    let board = double_tail_board();
    let left = move_snake(&board, &double_tail_snake(), &Move::Left);
    let readings: Vec<u128> = vec![0; 5000];
    assert_eq!(maximise_on_readings(&board, &left, &readings, 1), best_below(&board, &left, 0));

    let board = shouldnt_eat_board();
    for mv in [Move::Left, Move::Down] {
        let moved = move_snake(&board, &shouldnt_eat_snake(), &mv);
        assert_eq!(
            maximise_on_readings(&board, &moved, &readings, 1),
            best_below(&board, &moved, 0)
        );
    }
}
