//! The entry point of a turn: every legal first move is searched, and the
//! one with the best result is taken.

use vstd::prelude::*;
use std::time::Instant;
use par_map::ParMap;
use crate::grid::{Coord, Move};
use crate::moves::{available_moves, safe_moves};
use crate::search::{maximise, search_run};
use crate::state::{Battlesnake, Board, BoardModel, Game, SnakeModel};
use crate::transition::{move_snake, moved};

verus! {

/// Milliseconds of each turn that are kept back for the way to the server.
pub const SAFETY_MARGIN: u32 = 100;

/// The move made when no direction is safe.
pub const FALLBACK_MOVE: Move = Move::Up;

/// A body length as a length counter, saturating.
pub open spec fn counted(len: nat) -> u32 {
    if len > u32::MAX {
        u32::MAX
    } else {
        len as u32
    }
}

/// The last two body cells of the snake are the same cell.
pub open spec fn has_double_tail(you: SnakeModel) -> bool {
    you.body.len() >= 2 && you.body[you.body.len() - 2] == you.body.last()
}

/// The snake without the repeated tail cell that a snapshot may carry.
pub open spec fn normalized(you: SnakeModel) -> SnakeModel {
    if has_double_tail(you) {
        SnakeModel {
            body: you.body.drop_last(),
            length: counted((you.body.len() - 1) as nat),
            ..you
        }
    } else {
        you
    }
}

/// Dropping the repeated tail cell by hand changes nothing for the engine:
/// a snake that ends on the same cell twice, and the same snake with that
/// last cell taken away, are normalized to the same snake.
pub proof fn repeat_is_forgotten(you: SnakeModel, trimmed: SnakeModel)
    requires
        has_double_tail(you),
        trimmed == (SnakeModel {
            body: you.body.drop_last(),
            length: counted((you.body.len() - 1) as nat),
            ..you
        }),
        !has_double_tail(trimmed),
    ensures
        normalized(you) == normalized(trimmed),
{
}

/// The time that each search may take: the turn's timeout less the safety
/// margin, and nothing where the timeout is no longer than the margin.
pub open spec fn search_budget(timeout: u32) -> u128 {
    if timeout > SAFETY_MARGIN {
        (timeout - SAFETY_MARGIN) as u128
    } else {
        0u128
    }
}

/// `score` is what a search from `you` can return under `budget`: the best
/// score after some number of steps, and after none where the budget is
/// zero.
pub open spec fn is_search_outcome(board: BoardModel, you: SnakeModel, budget: u128, score: int) -> bool {
    exists|n: nat|
        (budget == 0 ==> n == 0) && score == (#[trigger] search_run(board, you, n)).best
}

/// `scored` pairs each legal first move of `you`, in order, with an outcome
/// of the search that follows it.
pub open spec fn scores_first_moves(
    board: BoardModel,
    you: SnakeModel,
    budget: u128,
    scored: Seq<(Move, i32)>,
) -> bool {
    let moves = safe_moves(board, you);
    &&& scored.len() == moves.len()
    &&& forall|i: int|
        0 <= i < moves.len() ==> (#[trigger] scored[i]).0 == moves[i] && is_search_outcome(
            board,
            moved(board, you, moves[i]),
            budget,
            scored[i].1 as int,
        )
}

/// Entry `k` of `scored` has the greatest score, and is the first that has
/// it.
pub open spec fn is_first_best(scored: Seq<(Move, i32)>, k: int) -> bool {
    &&& 0 <= k < scored.len()
    &&& forall|j: int| 0 <= j < scored.len() ==> (#[trigger] scored[j]).1 <= scored[k].1
    &&& forall|j: int| 0 <= j < k ==> (#[trigger] scored[j]).1 < scored[k].1
}

/// `chosen` is the move that `scored` selects: the move of the first entry
/// with the greatest score, or no move where there is no entry.
pub open spec fn selects(scored: Seq<(Move, i32)>, chosen: Option<Move>) -> bool {
    match chosen {
        None => scored.len() == 0,
        Some(mv) => exists|k: int| is_first_best(scored, k) && mv == (#[trigger] scored[k]).0,
    }
}

/// A copy of the first `count` cells of `cells`.
fn copy_cells(cells: &Vec<Coord>, count: usize) -> (copy: Vec<Coord>)
    requires
        count <= cells.len(),
    ensures
        copy@ == cells@.take(count as int),
{
    let mut copy: Vec<Coord> = Vec::new();
    let mut i: usize = 0;
    while i < count
        invariant
            i <= count <= cells.len(),
            copy@ == cells@.take(i as int),
        decreases count - i,
    {
        copy.push(cells[i]);
        i += 1;
    }
    copy
}

/// A copy of `you` in which a tail cell that the snapshot repeats is
/// dropped: where the body ends on the same cell twice, the last cell goes
/// and the length counter follows the body.
pub fn normalize_tail(you: &Battlesnake) -> (snake: Battlesnake)
    ensures
        snake@ == normalized(you@),
{
    let n = you.body.len();
    let doubled = n >= 2 && you.body[n - 2] == you.body[n - 1];
    let keep: usize = if doubled {
        n - 1
    } else {
        n
    };
    let length: u32 = if !doubled {
        you.length
    } else if keep > u32::MAX as usize {
        u32::MAX
    } else {
        keep as u32
    };
    let body = copy_cells(&you.body, keep);
    proof {
        if !doubled {
            assert(body@ =~= you.body@);
        }
    }
    Battlesnake {
        id: you.id.clone(),
        name: you.name.clone(),
        health: you.health,
        body,
        head: you.head,
        length,
        latency: you.latency.clone(),
        shout: match &you.shout {
            Some(s) => Some(s.clone()),
            None => None,
        },
    }
}

/// Makes the first move `mv` and searches on from there until `budget`
/// milliseconds have passed since `start_time`.
pub fn score_first_move(
    board: &Board,
    you: &Battlesnake,
    mv: Move,
    start_time: &Instant,
    budget: u128,
) -> (scored: (Move, i32))
    ensures
        scored.0 == mv,
        is_search_outcome(board@, moved(board@, you@, mv), budget, scored.1 as int),
{
    let moved_snake = move_snake(board, you, &mv);
    let score = maximise(board, &moved_snake, start_time, budget);
    proof {
        if budget == 0 {
            assert(score == search_run(board@, moved_snake@, 0).best);
        }
    }
    (mv, score)
}

/// `ParMap::par_map` of the crate par_map, collected into a vector: it
/// hands each item of `moves` to `score_first_move` on a pool of worker
/// threads and yields the results in the order of the items. The contract
/// claims just that: as many results as moves, in the same order, each one
/// a result that `score_first_move` can return for its move.
#[verifier::external_body]
fn score_moves_in_parallel(
    board: &Board,
    you: &Battlesnake,
    moves: Vec<Move>,
    start_time: &Instant,
    budget: u128,
) -> (scored: Vec<(Move, i32)>)
    ensures
        scored@.len() == moves@.len(),
        forall|i: int|
            0 <= i < moves@.len() ==> (#[trigger] scored@[i]).0 == moves@[i] && is_search_outcome(
                board@,
                moved(board@, you@, moves@[i]),
                budget,
                scored@[i].1 as int,
            ),
{
    let board = board.clone();
    let you = you.clone();
    let start_time = *start_time;
    moves.into_iter().par_map(
        move |mv| score_first_move(&board, &you, mv, &start_time, budget),
    ).collect()
}

/// Picks from the scored moves the one with the strictly greatest score;
/// among equal scores the earliest entry wins. With no entry there is no
/// move.
pub fn select_move(scored: &Vec<(Move, i32)>) -> (chosen: Option<Move>)
    ensures
        selects(scored@, chosen),
{
    if scored.len() == 0 {
        return None;
    }
    let mut best: usize = 0;
    let mut i: usize = 1;
    while i < scored.len()
        invariant
            1 <= i <= scored.len(),
            best < i,
            forall|j: int| 0 <= j < i ==> (#[trigger] scored@[j]).1 <= scored@[best as int].1,
            forall|j: int| 0 <= j < best ==> (#[trigger] scored@[j]).1 < scored@[best as int].1,
        decreases scored.len() - i,
    {
        if scored[i].1 > scored[best].1 {
            best = i;
        }
        i += 1;
    }
    Some(scored[best].0)
}

/// Decides the move of this turn. A repeated tail cell is dropped first;
/// then every legal first move is made and searched on, each search within
/// the turn's timeout less `SAFETY_MARGIN`, and the move with the best
/// result is taken, the earliest among equals. Where no move is legal the
/// answer is `FALLBACK_MOVE`.
pub fn get_move(game: &Game, _turn: &u32, board: &Board, you: &Battlesnake) -> (chosen: Move)
    ensures
        safe_moves(board@, normalized(you@)).len() == 0 ==> chosen == FALLBACK_MOVE,
        safe_moves(board@, normalized(you@)).len() > 0 ==> safe_moves(
            board@,
            normalized(you@),
        ).contains(chosen),
        safe_moves(board@, normalized(you@)).len() > 0 ==> exists|scored: Seq<(Move, i32)>|
            #![trigger selects(scored, Some(chosen))]
            scores_first_moves(board@, normalized(you@), search_budget(game.timeout), scored)
                && selects(scored, Some(chosen)),
{
    let start_time = Instant::now();
    let snake = normalize_tail(you);
    let budget: u128 = if game.timeout > SAFETY_MARGIN {
        (game.timeout - SAFETY_MARGIN) as u128
    } else {
        0
    };
    let safe = available_moves(board, &snake);
    let scored = score_moves_in_parallel(board, &snake, safe, &start_time, budget);
    match select_move(&scored) {
        Some(mv) => mv,
        None => FALLBACK_MOVE,
    }
}

/// Called once when a game begins. The engine keeps nothing between turns,
/// so there is nothing to set up.
pub fn start(_game: &Game, _turn: &u32, _board: &Board, _you: &Battlesnake) {
}

/// Called once when a game ends. The engine keeps nothing between turns, so
/// there is nothing to clear.
pub fn end(_game: &Game, _turn: &u32, _board: &Board, _you: &Battlesnake) {
}

} // verus!
