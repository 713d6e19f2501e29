//! The legal-move filter: which of the four directions do not kill the
//! snake at once.

use vstd::prelude::*;
use crate::grid::{step, Coord, Move};
use crate::state::{Battlesnake, Board, BoardModel, SnakeModel};
use crate::transition::contains_coord;

verus! {

/// One flag per direction: `true` while the direction is still held safe.
#[derive(Clone, Copy, Debug, PartialEq, Eq, Structural)]
pub struct MoveSafety {
    pub up: bool,
    pub down: bool,
    pub left: bool,
    pub right: bool,
}

impl MoveSafety {
    /// The flag of direction `mv`.
    pub open spec fn allows(self, mv: Move) -> bool {
        match mv {
            Move::Up => self.up,
            Move::Down => self.down,
            Move::Left => self.left,
            Move::Right => self.right,
        }
    }

    /// The directions whose flag is set, in the order up, down, left, right.
    pub open spec fn moves(self) -> Seq<Move> {
        (if self.up { seq![Move::Up] } else { Seq::<Move>::empty() })
            + (if self.down { seq![Move::Down] } else { Seq::<Move>::empty() })
            + (if self.left { seq![Move::Left] } else { Seq::<Move>::empty() })
            + (if self.right { seq![Move::Right] } else { Seq::<Move>::empty() })
    }

    /// Reads the flag of direction `mv`.
    pub fn get(&self, mv: Move) -> (safe: bool)
        ensures
            safe == self.allows(mv),
    {
        match mv {
            Move::Up => self.up,
            Move::Down => self.down,
            Move::Left => self.left,
            Move::Right => self.right,
        }
    }

    /// Lists the directions whose flag is set, in the order up, down, left,
    /// right.
    pub fn to_moves(&self) -> (list: Vec<Move>)
        ensures
            list@ == self.moves(),
    {
        let mut list: Vec<Move> = Vec::new();
        if self.up {
            list.push(Move::Up);
        }
        if self.down {
            list.push(Move::Down);
        }
        if self.left {
            list.push(Move::Left);
        }
        if self.right {
            list.push(Move::Right);
        }
        list
    }
}

/// A direction is listed exactly when its flag is set, and at most once.
pub proof fn moves_lists_allowed(flags: MoveSafety, mv: Move)
    ensures
        flags.moves().contains(mv) <==> flags.allows(mv),
        flags.moves().no_duplicates(),
        flags.moves().len() <= 4,
{
    let s = flags.moves();
    let a = if flags.up { seq![Move::Up] } else { Seq::<Move>::empty() };
    let b = if flags.down { seq![Move::Down] } else { Seq::<Move>::empty() };
    let c = if flags.left { seq![Move::Left] } else { Seq::<Move>::empty() };
    let d = if flags.right { seq![Move::Right] } else { Seq::<Move>::empty() };
    let nb = a.len();
    let nc = nb + b.len();
    let nd = nc + c.len();
    assert forall|i: int| 0 <= i < s.len() implies flags.allows(#[trigger] s[i]) && (s[i]
        == Move::Up <==> i < nb) && (s[i] == Move::Down <==> nb <= i < nc) && (s[i] == Move::Left
        <==> nc <= i < nd) by {}
    if flags.allows(mv) {
        let k = match mv {
            Move::Up => 0,
            Move::Down => nb as int,
            Move::Left => nc as int,
            Move::Right => nd as int,
        };
        assert(s[k] == mv);
    }
}

/// The no-reverse rule: with a neck behind the head, `mv` is the direction
/// that leads back onto it.
pub open spec fn reverses(body: Seq<Coord>, mv: Move) -> bool {
    &&& body.len() >= 2
    &&& {
        let head = body[0];
        let neck = body[1];
        if neck.x < head.x {
            mv == Move::Left
        } else if neck.x > head.x {
            mv == Move::Right
        } else if neck.y < head.y {
            mv == Move::Down
        } else if neck.y > head.y {
            mv == Move::Up
        } else {
            false
        }
    }
}

/// The boundary rule: from `head`, direction `mv` leads off a grid of the
/// given size.
pub open spec fn leaves_board(head: Coord, width: u32, height: u32, mv: Move) -> bool {
    match mv {
        Move::Up => head.y == height - 1,
        Move::Down => head.y == 0,
        Move::Left => head.x == 0,
        Move::Right => head.x == width - 1,
    }
}

/// The self-collision rule: direction `mv` leads onto a cell of the snake's
/// own body other than the cell its tail is about to leave.
pub open spec fn hits_body(snake: SnakeModel, mv: Move) -> bool {
    let target = step(snake.head, mv);
    snake.body.contains(target) && snake.body.last() != target
}

/// Direction `mv` passes all three rules.
pub open spec fn is_safe(board: BoardModel, snake: SnakeModel, mv: Move) -> bool {
    &&& !reverses(snake.body, mv)
    &&& !leaves_board(snake.head, board.width, board.height, mv)
    &&& !hits_body(snake, mv)
}

/// The flags that the filter arrives at.
pub open spec fn safety(board: BoardModel, snake: SnakeModel) -> MoveSafety {
    MoveSafety {
        up: is_safe(board, snake, Move::Up),
        down: is_safe(board, snake, Move::Down),
        left: is_safe(board, snake, Move::Left),
        right: is_safe(board, snake, Move::Right),
    }
}

/// The legal moves of `snake` on `board`, in the order up, down, left,
/// right.
pub open spec fn safe_moves(board: BoardModel, snake: SnakeModel) -> Seq<Move> {
    safety(board, snake).moves()
}

/// All four directions held safe.
pub fn get_initial_moves() -> (flags: MoveSafety)
    ensures
        flags == (MoveSafety { up: true, down: true, left: true, right: true }),
{
    MoveSafety { up: true, down: true, left: true, right: true }
}

/// Clears the flag of each direction that leads off the grid from `head`.
pub fn set_moves_inbound(safe_moves: &mut MoveSafety, head: &Coord, width: &u32, height: &u32)
    ensures
        forall|mv: Move|
            final(safe_moves).allows(mv) == (old(safe_moves).allows(mv) && !leaves_board(
                *head,
                *width,
                *height,
                mv,
            )),
{
    if *height > 0 && head.y == *height - 1 {
        safe_moves.up = false;
    }
    if head.y == 0 {
        safe_moves.down = false;
    }
    if head.x == 0 {
        safe_moves.left = false;
    }
    if *width > 0 && head.x == *width - 1 {
        safe_moves.right = false;
    }
}

/// Whether a step in direction `mv` lands on the snake's own body, the tail
/// cell excepted.
pub fn collides_with_self(you: &Battlesnake, mv: Move) -> (hit: bool)
    ensures
        hit == hits_body(you@, mv),
{
    let target = you.head.shifted(mv);
    let n = you.body.len();
    contains_coord(&you.body, target) && n > 0 && you.body[n - 1] != target
}

/// Clears the flag of each direction that leads onto the snake's own body.
/// The tail cell does not count: it is free by the time the head arrives.
pub fn set_moves_collide_self(safe_moves: &mut MoveSafety, you: &Battlesnake)
    ensures
        forall|mv: Move|
            final(safe_moves).allows(mv) == (old(safe_moves).allows(mv) && !hits_body(you@, mv)),
{
    if collides_with_self(you, Move::Left) {
        safe_moves.left = false;
    }
    if collides_with_self(you, Move::Right) {
        safe_moves.right = false;
    }
    if collides_with_self(you, Move::Up) {
        safe_moves.up = false;
    }
    if collides_with_self(you, Move::Down) {
        safe_moves.down = false;
    }
}

/// The moves that do not kill `you` at once, in the order up, down, left,
/// right. An empty list means that no direction is safe.
pub fn available_moves(board: &Board, you: &Battlesnake) -> (list: Vec<Move>)
    ensures
        list@ == safe_moves(board@, you@),
{
    let mut is_move_safe = get_initial_moves();
    if you.body.len() >= 2 {
        let my_head = you.body[0];
        let my_neck = you.body[1];
        if my_neck.x < my_head.x {
            is_move_safe.left = false;
        } else if my_neck.x > my_head.x {
            is_move_safe.right = false;
        } else if my_neck.y < my_head.y {
            is_move_safe.down = false;
        } else if my_neck.y > my_head.y {
            is_move_safe.up = false;
        }
    }
    proof {
        assert forall|mv: Move| is_move_safe.allows(mv) == !reverses(you@.body, mv) by {}
    }
    set_moves_inbound(&mut is_move_safe, &you.head, &board.width, &board.height);
    set_moves_collide_self(&mut is_move_safe, you);
    proof {
        let target = safety(board@, you@);
        assert(is_move_safe.allows(Move::Up) == target.allows(Move::Up));
        assert(is_move_safe.allows(Move::Down) == target.allows(Move::Down));
        assert(is_move_safe.allows(Move::Left) == target.allows(Move::Left));
        assert(is_move_safe.allows(Move::Right) == target.allows(Move::Right));
    }
    is_move_safe.to_moves()
}

/// A direction is among the legal moves exactly when it passes the three
/// rules.
pub proof fn safe_moves_are_the_safe_directions(board: BoardModel, snake: SnakeModel, mv: Move)
    ensures
        safe_moves(board, snake).contains(mv) <==> is_safe(board, snake, mv),
{
    moves_lists_allowed(safety(board, snake), mv);
}

/// A snake with a neck is never sent back onto it: the direction that leads
/// from the head to the second body cell is not among the legal moves.
pub proof fn never_reverses_into_neck(board: BoardModel, snake: SnakeModel, mv: Move)
    requires
        snake.body.len() >= 2,
        snake.body[0].x + mv.dx() == snake.body[1].x,
        snake.body[0].y + mv.dy() == snake.body[1].y,
    ensures
        !safe_moves(board, snake).contains(mv),
{
    safe_moves_are_the_safe_directions(board, snake, mv);
}

/// A head on an edge of the grid is never sent over that edge.
pub proof fn never_leaves_board(board: BoardModel, snake: SnakeModel, mv: Move)
    requires
        leaves_board(snake.head, board.width, board.height, mv),
    ensures
        !safe_moves(board, snake).contains(mv),
{
    safe_moves_are_the_safe_directions(board, snake, mv);
}

/// For a snake that is only a head, the edges of the grid are all that
/// limits it: a direction is legal exactly when it stays on the grid.
pub proof fn lone_head_is_limited_by_edges_only(board: BoardModel, snake: SnakeModel, mv: Move)
    requires
        snake.body == seq![snake.head],
    ensures
        safe_moves(board, snake).contains(mv) <==> !leaves_board(
            snake.head,
            board.width,
            board.height,
            mv,
        ),
{
    safe_moves_are_the_safe_directions(board, snake, mv);
}

} // verus!
