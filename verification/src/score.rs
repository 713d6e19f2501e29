//! The heuristic that says how good a position is for a snake.

use vstd::prelude::*;
use crate::grid::Move;
use crate::moves::{available_moves, moves_lists_allowed, safe_moves, safety};
use crate::state::{Battlesnake, Board, BoardModel, SnakeModel};
use crate::transition::contains_coord;

verus! {

/// Worth of eating when it is urgent, and cost of eating when it is not.
pub const FOOD_VALUE: i32 = 1;

/// Worth of each legal move.
pub const SPACE_VALUE: i32 = 2;

/// Health at or below which food is urgent.
pub const HEALTH_THRESHOLD: u32 = 5;

/// Worth of meeting a shorter snake head to head.
pub const KILLING_RATIO: i32 = 20;

/// Score of certain death: below every score that the heuristic can add up.
pub const DEATH_SCORE: i32 = i32::MIN;

/// Score of a won game.
pub const WIN_SCORE: i32 = i32::MAX;

/// Room to move: a fixed worth for each legal move.
pub open spec fn space_score(board: BoardModel, you: SnakeModel) -> int {
    SPACE_VALUE * safe_moves(board, you).len()
}

/// Food under the head counts for the snake when its health is low and
/// against it otherwise.
pub open spec fn food_score(board: BoardModel, you: SnakeModel) -> int {
    if !board.food.contains(you.head) {
        0
    } else if you.health <= HEALTH_THRESHOLD {
        FOOD_VALUE as int
    } else {
        -FOOD_VALUE
    }
}

/// `you` meets `other` head to head and wins: another snake, on the same
/// cell, and strictly shorter.
pub open spec fn is_kill(other: SnakeModel, you: SnakeModel) -> bool {
    &&& other.id != you.id
    &&& other.head == you.head
    &&& you.length > other.length
}

/// How many of `snakes` the snake `you` kills head to head.
pub open spec fn kills(snakes: Seq<SnakeModel>, you: SnakeModel) -> nat
    decreases snakes.len(),
{
    if snakes.len() == 0 {
        0
    } else {
        kills(snakes.drop_last(), you) + if is_kill(snakes.last(), you) {
            1nat
        } else {
            0nat
        }
    }
}

/// The position is lost whatever else holds of it: no legal move, no
/// health, or the head on the tail cell.
pub open spec fn is_terminal(board: BoardModel, you: SnakeModel) -> bool {
    ||| safe_moves(board, you).len() == 0
    ||| you.health == 0
    ||| (you.body.len() > 0 && you.body.last() == you.head)
}

/// The score of a position that is not lost: a win where the only other
/// snake is killed, otherwise the sum of the terms, held within the score
/// range.
pub open spec fn heuristic(board: BoardModel, you: SnakeModel) -> int {
    let k = kills(board.snakes, you);
    let total = space_score(board, you) + food_score(board, you) + KILLING_RATIO * k;
    if k > 0 && board.snakes.len() == 2 {
        WIN_SCORE as int
    } else if total > WIN_SCORE {
        WIN_SCORE as int
    } else {
        total
    }
}

/// The score of a position.
pub open spec fn position_score(board: BoardModel, you: SnakeModel) -> int {
    if is_terminal(board, you) {
        DEATH_SCORE as int
    } else {
        heuristic(board, you)
    }
}

/// Counts the snakes on the board that `you` kills head to head.
pub fn count_kills(board: &Board, you: &Battlesnake) -> (count: usize)
    ensures
        count == kills(board@.snakes, you@),
{
    let mut count: usize = 0;
    let mut i: usize = 0;
    while i < board.snakes.len()
        invariant
            i <= board.snakes.len(),
            count <= i,
            count == kills(board@.snakes.take(i as int), you@),
        decreases board.snakes.len() - i,
    {
        let snake = &board.snakes[i];
        proof {
            let next = board@.snakes.take(i + 1);
            assert(next.drop_last() =~= board@.snakes.take(i as int));
        }
        if !(snake.id == you.id) && snake.head == you.head && you.length > snake.length {
            count += 1;
        }
        i += 1;
    }
    proof {
        assert(board@.snakes.take(i as int) =~= board@.snakes);
    }
    count
}

/// Scores the position of `you` on `board`. A lost position scores
/// `DEATH_SCORE` whatever the other terms say.
pub fn score_position(board: &Board, you: &Battlesnake) -> (score: i32)
    ensures
        score == position_score(board@, you@),
{
    let safe_moves = available_moves(board, you);
    let will_eat = contains_coord(&board.food, you.head);
    let n = you.body.len();
    if safe_moves.len() == 0 || you.health == 0 || (n > 0 && you.body[n - 1] == you.head) {
        return DEATH_SCORE;
    }
    proof {
        moves_lists_allowed(safety(board@, you@), Move::Up);
    }
    let mut total: i64 = (SPACE_VALUE as i64) * (safe_moves.len() as i64);
    if will_eat && you.health <= HEALTH_THRESHOLD {
        total = total + FOOD_VALUE as i64;
    } else if will_eat {
        total = total - FOOD_VALUE as i64;
    }
    let killed = count_kills(board, you);
    if killed > 0 && board.snakes.len() == 2 {
        return WIN_SCORE;
    }
    if killed > 200_000_000 {
        return WIN_SCORE;
    }
    total = total + (KILLING_RATIO as i64) * (killed as i64);
    if total > WIN_SCORE as i64 {
        WIN_SCORE
    } else {
        total as i32
    }
}

/// A snake without a legal move scores `DEATH_SCORE`, whatever the other
/// terms of the heuristic are.
pub proof fn no_moves_scores_death(board: BoardModel, you: SnakeModel)
    requires
        safe_moves(board, you).len() == 0,
    ensures
        position_score(board, you) == DEATH_SCORE,
{
}

/// `DEATH_SCORE` is the score of lost positions only: every other position
/// scores strictly more.
pub proof fn death_is_below_every_other_score(board: BoardModel, you: SnakeModel)
    ensures
        position_score(board, you) == DEATH_SCORE <==> is_terminal(board, you),
        DEATH_SCORE <= position_score(board, you) <= WIN_SCORE,
{
}

} // verus!
