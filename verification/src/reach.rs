//! What a search that runs to the end has found: the best credited score of
//! every position that the snake can reach.

use vstd::prelude::*;
use crate::score::{position_score, DEATH_SCORE};
use crate::search::{
    best_never_falls, children, credited, search_run, search_step, NodeModel, SearchModel,
};
use crate::state::{BoardModel, SnakeModel};

verus! {

/// The position that a search from `you` starts from.
pub open spec fn root(you: SnakeModel) -> NodeModel {
    NodeModel { you, turn: 0 }
}

/// The credited score of a position: its score with its depth added on.
pub open spec fn node_credit(board: BoardModel, node: NodeModel) -> int {
    credited(position_score(board, node.you), node.turn)
}

/// `to` lies `k` legal moves below `from`, and none of the positions passed
/// on the way, `from` included where `k` is not zero, is lost.
pub open spec fn descends(board: BoardModel, from: NodeModel, to: NodeModel, k: nat) -> bool
    decreases k,
{
    if k == 0 {
        from == to
    } else {
        &&& position_score(board, from.you) != DEATH_SCORE
        &&& exists|i: int|
            0 <= i < children(board, from).len() && descends(
                board,
                #[trigger] children(board, from)[i],
                to,
                (k - 1) as nat,
            )
    }
}

/// `node` is a position that the snake `you` can reach by one legal move or
/// more without passing through a lost position.
pub open spec fn in_tree(board: BoardModel, you: SnakeModel, node: NodeModel) -> bool {
    exists|k: nat| k >= 1 && #[trigger] descends(board, root(you), node, k)
}

/// The search `s` has dealt with `node` or will: its credited score is no
/// more than the best so far, or it lies below a waiting position.
pub open spec fn covered(board: BoardModel, s: SearchModel, node: NodeModel) -> bool {
    ||| node_credit(board, node) <= s.best
    ||| exists|j: int, k: nat|
        0 <= j < s.queue.len() && #[trigger] descends(board, s.queue[j], node, k)
}

/// The best of the search `s` is the score of the start or the credited
/// score of a position that can be reached, and only such positions wait.
pub open spec fn grounded(board: BoardModel, you: SnakeModel, s: SearchModel) -> bool {
    &&& s.best == position_score(board, you) || exists|node: NodeModel|
        #[trigger] in_tree(board, you, node) && s.best == node_credit(board, node)
    &&& forall|j: int| 0 <= j < s.queue.len() ==> in_tree(board, you, #[trigger] s.queue[j])
}

/// One move further down from a position that is not lost is one step
/// further below.
pub proof fn descends_one_more(
    board: BoardModel,
    from: NodeModel,
    to: NodeModel,
    k: nat,
    i: int,
)
    requires
        descends(board, from, to, k),
        position_score(board, to.you) != DEATH_SCORE,
        0 <= i < children(board, to).len(),
    ensures
        descends(board, from, children(board, to)[i], k + 1),
    decreases k,
{
    let child = children(board, to)[i];
    if k == 0 {
        assert(descends(board, children(board, from)[i], child, 0));
    } else {
        let i0 = choose|i0: int|
            0 <= i0 < children(board, from).len() && descends(
                board,
                #[trigger] children(board, from)[i0],
                to,
                (k - 1) as nat,
            );
        descends_one_more(board, children(board, from)[i0], to, (k - 1) as nat, i);
        assert(descends(board, children(board, from)[i0], child, k));
    }
}

/// A step of the search loses sight of no position.
proof fn step_keeps_covered(board: BoardModel, s: SearchModel, node: NodeModel)
    requires
        covered(board, s, node),
    ensures
        covered(board, search_step(board, s), node),
{
    let next = search_step(board, s);
    if node_credit(board, node) <= s.best {
    } else {
        let (j, k) = choose|j: int, k: nat|
            0 <= j < s.queue.len() && #[trigger] descends(board, s.queue[j], node, k);
        let first = s.queue[0];
        let rest = s.queue.subrange(1, s.queue.len() as int);
        if j >= 1 {
            assert(next.queue[j - 1] == s.queue[j]);
            assert(descends(board, next.queue[j - 1], node, k));
        } else if k == 0 {
            assert(node == first);
        } else {
            let i = choose|i: int|
                0 <= i < children(board, first).len() && descends(
                    board,
                    #[trigger] children(board, first)[i],
                    node,
                    (k - 1) as nat,
                );
            assert(next.queue[rest.len() + i] == children(board, first)[i]);
            assert(descends(board, next.queue[rest.len() + i], node, (k - 1) as nat));
        }
    }
}

/// At every stage of the search, every position that can be reached has
/// been dealt with or lies below a waiting one.
pub proof fn search_covers(board: BoardModel, you: SnakeModel, n: nat, node: NodeModel)
    requires
        in_tree(board, you, node),
    ensures
        covered(board, search_run(board, you, n), node),
    decreases n,
{
    if n == 0 {
        let k = choose|k: nat| k >= 1 && #[trigger] descends(board, root(you), node, k);
        let i = choose|i: int|
            0 <= i < children(board, root(you)).len() && descends(
                board,
                #[trigger] children(board, root(you))[i],
                node,
                (k - 1) as nat,
            );
        let s = search_run(board, you, 0);
        assert(s.queue[i] == children(board, root(you))[i]);
        assert(descends(board, s.queue[i], node, (k - 1) as nat));
    } else {
        search_covers(board, you, (n - 1) as nat, node);
        step_keeps_covered(board, search_run(board, you, (n - 1) as nat), node);
    }
}

/// A step of the search keeps its best and its queue within what can be
/// reached.
proof fn step_keeps_grounded(board: BoardModel, you: SnakeModel, s: SearchModel)
    requires
        grounded(board, you, s),
    ensures
        grounded(board, you, search_step(board, s)),
{
    let next = search_step(board, s);
    if s.queue.len() > 0 {
        let first = s.queue[0];
        let rest = s.queue.subrange(1, s.queue.len() as int);
        assert(in_tree(board, you, first));
        if next.best != s.best {
            assert(next.best == node_credit(board, first));
        }
        assert forall|j: int| 0 <= j < next.queue.len() implies in_tree(
            board,
            you,
            #[trigger] next.queue[j],
        ) by {
            if j < rest.len() {
                assert(next.queue[j] == s.queue[j + 1]);
            } else {
                let i = j - rest.len();
                let k = choose|k: nat| k >= 1 && #[trigger] descends(board, root(you), first, k);
                descends_one_more(board, root(you), first, k, i);
                assert(next.queue[j] == children(board, first)[i]);
                assert(descends(board, root(you), next.queue[j], k + 1));
            }
        }
    }
}

/// At every stage of the search, its best is the score of the start or the
/// credited score of a position that can be reached.
pub proof fn search_is_grounded(board: BoardModel, you: SnakeModel, n: nat)
    ensures
        grounded(board, you, search_run(board, you, n)),
    decreases n,
{
    if n == 0 {
        let s = search_run(board, you, 0);
        assert forall|j: int| 0 <= j < s.queue.len() implies in_tree(
            board,
            you,
            #[trigger] s.queue[j],
        ) by {
            assert(s.queue[j] == children(board, root(you))[j]);
            assert(descends(board, children(board, root(you))[j], s.queue[j], 0));
            assert(descends(board, root(you), s.queue[j], 1));
        }
    } else {
        search_is_grounded(board, you, (n - 1) as nat);
        step_keeps_grounded(board, you, search_run(board, you, (n - 1) as nat));
    }
}

/// A search that has run until nothing waits has found the greatest credited
/// score: its result is at least the score of the start and the credited
/// score of every position that can be reached, and it is one of these.
pub proof fn finished_search_is_exact(board: BoardModel, you: SnakeModel, n: nat)
    requires
        search_run(board, you, n).queue.len() == 0,
    ensures
        search_run(board, you, n).best >= position_score(board, you),
        forall|node: NodeModel| #[trigger]
            in_tree(board, you, node) ==> node_credit(board, node) <= search_run(
                board,
                you,
                n,
            ).best,
        search_run(board, you, n).best == position_score(board, you) || exists|node: NodeModel|
            #[trigger] in_tree(board, you, node) && search_run(board, you, n).best == node_credit(
                board,
                node,
            ),
{
    best_never_falls(board, you, 0, n);
    search_is_grounded(board, you, n);
    assert forall|node: NodeModel| #[trigger] in_tree(board, you, node) implies node_credit(
        board,
        node,
    ) <= search_run(board, you, n).best by {
        search_covers(board, you, n, node);
    }
}

} // verus!
