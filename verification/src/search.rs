//! The look-ahead: a breadth-first walk over the positions that a snake can
//! reach, cut off by the clock, that keeps the best score met so far.

use vstd::prelude::*;
use std::collections::VecDeque;
use std::time::Instant;
use crate::moves::{available_moves, safe_moves};
use crate::score::{position_score, score_position, DEATH_SCORE};
use crate::state::{Battlesnake, Board, BoardModel, SnakeModel};
use crate::transition::{move_snake, moved};

verus! {

/// A position waiting to be looked at, as a mathematical value.
pub struct NodeModel {
    pub you: SnakeModel,
    /// Moves made since the position that the search started from.
    pub turn: u32,
}

/// A position waiting to be looked at.
#[derive(Clone, Debug, PartialEq, Eq)]
pub struct MinimaxNode {
    pub you: Battlesnake,
    pub turn: u32,
}

impl View for MinimaxNode {
    type V = NodeModel;

    open spec fn view(&self) -> NodeModel {
        NodeModel { you: self.you@, turn: self.turn }
    }
}

/// The state of a search, as a mathematical value.
pub struct SearchModel {
    /// Best credited score among the positions looked at so far.
    pub best: int,
    /// Positions still to look at, the next one first.
    pub queue: Seq<NodeModel>,
}

/// The depth of a position one move further on, saturating.
pub open spec fn next_turn(turn: u32) -> u32 {
    if turn < u32::MAX {
        (turn + 1) as u32
    } else {
        turn
    }
}

/// A score with the depth at which it was reached added on, held within
/// the score range: surviving longer counts for a position.
pub open spec fn credited(score: int, turn: u32) -> int {
    if score + turn > i32::MAX {
        i32::MAX as int
    } else {
        score + turn
    }
}

/// The positions one legal move away from `node`, in the order of the moves.
pub open spec fn children(board: BoardModel, node: NodeModel) -> Seq<NodeModel> {
    let moves = safe_moves(board, node.you);
    Seq::new(
        moves.len(),
        |i: int| NodeModel { you: moved(board, node.you, moves[i]), turn: next_turn(node.turn) },
    )
}

/// The search before any position of the queue is looked at: the score of
/// the starting position, and its children waiting unless it is lost.
pub open spec fn search_start(board: BoardModel, you: SnakeModel) -> SearchModel {
    let score = position_score(board, you);
    SearchModel {
        best: score,
        queue: if score == DEATH_SCORE {
            Seq::<NodeModel>::empty()
        } else {
            children(board, NodeModel { you, turn: 0 })
        },
    }
}

/// One step of the search: the first waiting position is scored, its
/// credited score raises the best where it is higher, and unless the
/// position is lost its children join the end of the queue. With nothing
/// waiting the search stays as it is.
pub open spec fn search_step(board: BoardModel, s: SearchModel) -> SearchModel {
    if s.queue.len() == 0 {
        s
    } else {
        let node = s.queue[0];
        let rest = s.queue.subrange(1, s.queue.len() as int);
        let score = position_score(board, node.you);
        let candidate = credited(score, node.turn);
        SearchModel {
            best: if candidate > s.best {
                candidate
            } else {
                s.best
            },
            queue: if score == DEATH_SCORE {
                rest
            } else {
                rest + children(board, node)
            },
        }
    }
}

/// The search from `you` after `n` steps.
pub open spec fn search_run(board: BoardModel, you: SnakeModel, n: nat) -> SearchModel
    decreases n,
{
    if n == 0 {
        search_start(board, you)
    } else {
        search_step(board, search_run(board, you, (n - 1) as nat))
    }
}

/// The mathematical values of the queued positions, in queue order.
pub open spec fn queue_model(queue: Seq<MinimaxNode>) -> Seq<NodeModel> {
    Seq::new(queue.len(), |i: int| queue[i]@)
}

/// Appends to `queue` the positions one legal move away from the snake
/// `you`, itself `turn` moves into the search.
fn push_children(queue: &mut VecDeque<MinimaxNode>, board: &Board, you: &Battlesnake, turn: u32)
    ensures
        queue_model(final(queue)@) == queue_model(old(queue)@) + children(
            board@,
            NodeModel { you: you@, turn },
        ),
{
    let ghost node = NodeModel { you: you@, turn };
    let moves = available_moves(board, you);
    let deeper: u32 = if turn < u32::MAX {
        turn + 1
    } else {
        turn
    };
    let mut i: usize = 0;
    while i < moves.len()
        invariant
            i <= moves.len(),
            moves@ == safe_moves(board@, you@),
            deeper == next_turn(turn),
            node == (NodeModel { you: you@, turn }),
            queue_model(queue@) == queue_model(old(queue)@) + children(board@, node).take(
                i as int,
            ),
        decreases moves.len() - i,
    {
        let ghost before = queue@;
        let child = MinimaxNode { you: move_snake(board, you, &moves[i]), turn: deeper };
        queue.push_back(child);
        proof {
            assert(queue_model(queue@) =~= queue_model(before).push(child@));
        }
        i += 1;
    }
}

/// A search in progress.
pub struct Search {
    queue: VecDeque<MinimaxNode>,
    best: i32,
}

impl View for Search {
    type V = SearchModel;

    closed spec fn view(&self) -> SearchModel {
        SearchModel { best: self.best as int, queue: queue_model(self.queue@) }
    }
}

impl Search {
    /// Starts a search from `you`: scores the position and, unless it is
    /// lost, queues the positions one legal move away.
    pub fn start(board: &Board, you: &Battlesnake) -> (search: Search)
        ensures
            search@ == search_start(board@, you@),
    {
        let best = score_position(board, you);
        let mut queue: VecDeque<MinimaxNode> = VecDeque::new();
        proof {
            assert(queue_model(queue@) =~= Seq::<NodeModel>::empty());
        }
        if best != DEATH_SCORE {
            push_children(&mut queue, board, you, 0);
        }
        Search { queue, best }
    }

    /// The best credited score among the positions looked at so far.
    pub fn best(&self) -> (best: i32)
        ensures
            best == self@.best,
    {
        self.best
    }

    /// Whether no position is left to look at.
    pub fn is_exhausted(&self) -> (done: bool)
        ensures
            done == (self@.queue.len() == 0),
    {
        self.queue.len() == 0
    }

    /// Takes one step: looks at the first waiting position, if there is one.
    pub fn expand_next(&mut self, board: &Board)
        ensures
            final(self)@ == search_step(board@, old(self)@),
    {
        let ghost before = self.queue@;
        match self.queue.pop_front() {
            None => {},
            Some(node) => {
                let ghost rest = self.queue@;
                proof {
                    assert(queue_model(rest) =~= queue_model(before).subrange(
                        1,
                        before.len() as int,
                    ));
                }
                let score = score_position(board, &node.you);
                let sum: i64 = score as i64 + node.turn as i64;
                let candidate: i32 = if sum > i32::MAX as i64 {
                    i32::MAX
                } else {
                    sum as i32
                };
                if candidate > self.best {
                    self.best = candidate;
                }
                if score != DEATH_SCORE {
                    push_children(&mut self.queue, board, &node.you, node.turn);
                }
            },
        }
    }

    /// What one round of the search loop does once the clock has been read:
    /// with time left and a position waiting it takes one step and says so;
    /// otherwise it leaves the search as it is.
    pub fn advance(&mut self, board: &Board, elapsed: u128, max_duration: u128) -> (stepped: bool)
        ensures
            stepped == (elapsed < max_duration && old(self)@.queue.len() > 0),
            stepped ==> final(self)@ == search_step(board@, old(self)@),
            !stepped ==> final(self)@ == old(self)@,
    {
        if elapsed >= max_duration || self.queue.len() == 0 {
            return false;
        }
        self.expand_next(board);
        true
    }
}

/// The best credited score that a search from `you` meets before
/// `max_duration` milliseconds have passed since `start_date`. The clock is
/// read before each step, so the number of steps taken is not known in
/// advance; the result is the best score after some number of them, and the
/// score of the starting position itself where the budget is zero.
pub fn maximise(board: &Board, you: &Battlesnake, start_date: &Instant, max_duration: u128) -> (best:
    i32)
    ensures
        exists|n: nat| best == (#[trigger] search_run(board@, you@, n)).best,
        max_duration == 0 ==> best == position_score(board@, you@),
        best >= position_score(board@, you@),
{
    let mut search = Search::start(board, you);
    // The count of steps only bounds the loop; the clock ends it long before.
    let mut steps: u64 = 0;
    while steps < u64::MAX
        invariant
            search@ == search_run(board@, you@, steps as nat),
            max_duration == 0 ==> steps == 0,
        decreases u64::MAX - steps,
    {
        let duration = start_date.elapsed().as_millis();
        if !search.advance(board, duration, max_duration) {
            break;
        }
        steps += 1;
    }
    proof {
        best_never_falls(board@, you@, 0, steps as nat);
    }
    search.best()
}

/// The number of steps that a search takes when the clock shows `readings`,
/// one reading before each step: it goes on while a reading is below
/// `budget`, and ends with the readings.
pub open spec fn steps_within(readings: Seq<u128>, budget: u128) -> nat
    decreases readings.len(),
{
    if readings.len() == 0 || readings[0] >= budget {
        0
    } else {
        1 + steps_within(readings.drop_first(), budget)
    }
}

/// The search of `maximise` with the clock replaced by `readings`, the
/// elapsed milliseconds that the clock would show before each step.
pub fn maximise_on_readings(
    board: &Board,
    you: &Battlesnake,
    readings: &Vec<u128>,
    max_duration: u128,
) -> (best: i32)
    ensures
        best == search_run(board@, you@, steps_within(readings@, max_duration)).best,
{
    let mut search = Search::start(board, you);
    let mut i: usize = 0;
    proof {
        assert(readings@.skip(0) =~= readings@);
    }
    while i < readings.len()
        invariant_except_break
            search@ == search_run(board@, you@, i as nat),
        invariant
            i <= readings.len(),
            steps_within(readings@, max_duration) == i + steps_within(
                readings@.skip(i as int),
                max_duration,
            ),
        ensures
            search@.best == search_run(
                board@,
                you@,
                steps_within(readings@, max_duration),
            ).best,
        decreases readings.len() - i,
    {
        let ghost rest = readings@.skip(i as int);
        proof {
            assert(rest.drop_first() =~= readings@.skip(i + 1));
        }
        if !search.advance(board, readings[i], max_duration) {
            proof {
                if readings@[i as int] < max_duration {
                    exhausted_search_stays(
                        board@,
                        you@,
                        i as nat,
                        steps_within(readings@, max_duration),
                    );
                }
            }
            break;
        }
        i += 1;
    }
    search.best()
}

/// Once nothing is waiting, further steps change nothing.
pub proof fn exhausted_search_stays(board: BoardModel, you: SnakeModel, done: nat, later: nat)
    requires
        search_run(board, you, done).queue.len() == 0,
        done <= later,
    ensures
        search_run(board, you, later) == search_run(board, you, done),
    decreases later,
{
    if done < later {
        exhausted_search_stays(board, you, done, (later - 1) as nat);
    }
}

/// With the same clock, a larger budget allows at least as many steps.
pub proof fn steps_grow_with_budget(readings: Seq<u128>, smaller: u128, larger: u128)
    requires
        smaller <= larger,
    ensures
        steps_within(readings, smaller) <= steps_within(readings, larger),
    decreases readings.len(),
{
    if readings.len() > 0 && readings[0] < smaller {
        steps_grow_with_budget(readings.drop_first(), smaller, larger);
    }
}

/// The search is monotonic in its time budget: with the same clock, a
/// larger budget never gives a lower result.
pub proof fn larger_budget_never_scores_less(
    board: BoardModel,
    you: SnakeModel,
    readings: Seq<u128>,
    smaller: u128,
    larger: u128,
)
    requires
        smaller <= larger,
    ensures
        search_run(board, you, steps_within(readings, smaller)).best <= search_run(
            board,
            you,
            steps_within(readings, larger),
        ).best,
{
    steps_grow_with_budget(readings, smaller, larger);
    best_never_falls(
        board,
        you,
        steps_within(readings, smaller),
        steps_within(readings, larger),
    );
}

/// Looking further never lowers the result: the best score after more steps
/// is at least the best score after fewer.
pub proof fn best_never_falls(board: BoardModel, you: SnakeModel, fewer: nat, more: nat)
    requires
        fewer <= more,
    ensures
        search_run(board, you, fewer).best <= search_run(board, you, more).best,
    decreases more,
{
    if fewer < more {
        best_never_falls(board, you, fewer, (more - 1) as nat);
    }
}

} // verus!
