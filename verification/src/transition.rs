//! What one move does to a snake.

use vstd::prelude::*;
use crate::grid::{step, step_in_range, Coord, Move};
use crate::state::{Battlesnake, Board, BoardModel, SnakeModel};

verus! {

/// Health of a snake that has just eaten.
pub const FULL_HEALTH: u32 = 100;

/// A step from `head` in direction `mv` leads onto food. A step that leaves
/// the range of a coordinate leads onto no cell, and so onto no food.
pub open spec fn lands_on_food(board: BoardModel, head: Coord, mv: Move) -> bool {
    step_in_range(head, mv) && board.food.contains(step(head, mv))
}

/// Health after a step from `head` in direction `mv`: full where the step
/// leads onto food, otherwise one less, and never below zero.
pub open spec fn health_after(board: BoardModel, health: u32, head: Coord, mv: Move) -> u32 {
    if lands_on_food(board, head, mv) {
        FULL_HEALTH
    } else if health == 0 {
        0u32
    } else {
        (health - 1) as u32
    }
}

/// Body after a move onto `new_head`: the new head in front, and the tail
/// given up unless the snake was at full health before the move.
pub open spec fn body_after(body: Seq<Coord>, health: u32, new_head: Coord) -> Seq<Coord> {
    let grown = seq![new_head] + body;
    if health == FULL_HEALTH {
        grown
    } else {
        grown.drop_last()
    }
}

/// Length counter after a move: one more for a snake that was at full
/// health, saturating at the top of its range.
pub open spec fn length_after(length: u32, health: u32) -> u32 {
    if health == FULL_HEALTH && length < u32::MAX {
        (length + 1) as u32
    } else {
        length
    }
}

/// The snake that results when `snake` takes one step in direction `mv`.
///
/// A head beyond the range of a coordinate cannot be represented: where the
/// step would lead there, the new head is held on the last cell of the
/// range, which on that axis is the cell it came from. Such a snake has left
/// every board, and it has eaten nothing.
pub open spec fn moved(board: BoardModel, snake: SnakeModel, mv: Move) -> SnakeModel {
    let new_head = step(snake.head, mv);
    SnakeModel {
        id: snake.id,
        name: snake.name,
        health: health_after(board, snake.health, snake.head, mv),
        body: body_after(snake.body, snake.health, new_head),
        head: new_head,
        length: length_after(snake.length, snake.health),
        latency: snake.latency,
        shout: None,
    }
}

/// Whether `c` is one of `cells`.
pub fn contains_coord(cells: &Vec<Coord>, c: Coord) -> (found: bool)
    ensures
        found == cells@.contains(c),
{
    let mut i: usize = 0;
    while i < cells.len()
        invariant
            i <= cells.len(),
            forall|j: int| 0 <= j < i ==> cells@[j] != c,
        decreases cells.len() - i,
    {
        if cells[i] == c {
            return true;
        }
        i += 1;
    }
    false
}

/// Simulates one move. The inputs are left as they are; the result is a new
/// snake. The move is applied even where it kills: a snake that starves or
/// leaves the board is for the scorer to find.
pub fn move_snake(board: &Board, snake: &Battlesnake, direction: &Move) -> (next: Battlesnake)
    ensures
        next@ == moved(board@, snake@, *direction),
{
    let new_head = snake.head.shifted(*direction);
    let keep: usize = if snake.health == FULL_HEALTH {
        snake.body.len()
    } else if snake.body.len() == 0 {
        0
    } else {
        snake.body.len() - 1
    };
    let mut body: Vec<Coord> = Vec::new();
    if snake.health == FULL_HEALTH || snake.body.len() > 0 {
        body.push(new_head);
        let mut i: usize = 0;
        while i < keep
            invariant
                i <= keep <= snake.body.len(),
                body@.len() == i + 1,
                body@[0] == new_head,
                forall|j: int| 0 <= j < i ==> body@[j + 1] == snake.body@[j],
            decreases keep - i,
        {
            body.push(snake.body[i]);
            i += 1;
        }
    }
    let health: u32 = if snake.head.can_step(*direction) && contains_coord(&board.food, new_head) {
        FULL_HEALTH
    } else if snake.health == 0 {
        0
    } else {
        snake.health - 1
    };
    let length: u32 = if snake.health == FULL_HEALTH {
        snake.length.saturating_add(1)
    } else {
        snake.length
    };
    proof {
        assert(body@ =~= body_after(snake.body@, snake.health, new_head));
    }
    Battlesnake {
        id: snake.id.clone(),
        name: snake.name.clone(),
        health,
        body,
        head: new_head,
        length,
        latency: snake.latency.clone(),
        shout: None,
    }
}

/// A step that does not lead onto food costs a living snake exactly one
/// point of health.
pub proof fn step_off_food_costs_one_health(board: BoardModel, snake: SnakeModel, mv: Move)
    requires
        !lands_on_food(board, snake.head, mv),
        snake.health >= 1,
    ensures
        moved(board, snake, mv).health == snake.health - 1,
{
}

/// A step onto food restores full health.
pub proof fn step_onto_food_restores_health(board: BoardModel, snake: SnakeModel, mv: Move)
    requires
        lands_on_food(board, snake.head, mv),
    ensures
        moved(board, snake, mv).health == FULL_HEALTH,
{
}

/// A snake below full health keeps its length when it moves, also onto
/// food: the new head is added and the tail cell removed.
pub proof fn step_below_full_health_keeps_length(board: BoardModel, snake: SnakeModel, mv: Move)
    requires
        snake.health != FULL_HEALTH,
    ensures
        moved(board, snake, mv).body.len() == snake.body.len(),
        moved(board, snake, mv).length == snake.length,
        snake.body.len() > 0 ==> moved(board, snake, mv).body == seq![step(snake.head, mv)]
            + snake.body.drop_last(),
{
    if snake.body.len() > 0 {
        assert(moved(board, snake, mv).body =~= seq![step(snake.head, mv)]
            + snake.body.drop_last());
    }
}

/// A snake at full health grows by one when it moves: the new head is
/// added, the tail stays, and the length counter goes up by one.
pub proof fn step_at_full_health_grows(board: BoardModel, snake: SnakeModel, mv: Move)
    requires
        snake.health == FULL_HEALTH,
        snake.length < u32::MAX,
    ensures
        moved(board, snake, mv).body == seq![step(snake.head, mv)] + snake.body,
        moved(board, snake, mv).body.len() == snake.body.len() + 1,
        moved(board, snake, mv).length == snake.length + 1,
{
}

/// A move keeps a consistent snake consistent.
pub proof fn step_keeps_snake_consistent(board: BoardModel, snake: SnakeModel, mv: Move)
    requires
        snake.wf(),
        snake.body.len() < u32::MAX,
    ensures
        moved(board, snake, mv).wf(),
{
}

} // verus!
