//! The snapshot of one turn: snakes, the board they live on, and the game
//! they belong to, each with the mathematical value that contracts speak of.

use vstd::prelude::*;
use crate::grid::Coord;

verus! {

/// What a snake is, as a mathematical value.
pub struct SnakeModel {
    pub id: Seq<char>,
    pub name: Seq<char>,
    pub health: u32,
    /// Occupied cells from head to tail.
    pub body: Seq<Coord>,
    pub head: Coord,
    pub length: u32,
    pub latency: Seq<char>,
    pub shout: Option<Seq<char>>,
}

/// A snake as the game reports it.
#[derive(Clone, Debug, PartialEq, Eq)]
pub struct Battlesnake {
    pub id: String,
    pub name: String,
    pub health: u32,
    pub body: Vec<Coord>,
    pub head: Coord,
    pub length: u32,
    pub latency: String,
    pub shout: Option<String>,
}

impl View for Battlesnake {
    type V = SnakeModel;

    open spec fn view(&self) -> SnakeModel {
        SnakeModel {
            id: self.id@,
            name: self.name@,
            health: self.health,
            body: self.body@,
            head: self.head,
            length: self.length,
            latency: self.latency@,
            shout: match self.shout {
                Some(s) => Some(s@),
                None => None,
            },
        }
    }
}

impl SnakeModel {
    /// The snake is consistent: it has a head, the head is the first body
    /// cell, the length counter agrees with the body, and health is at most
    /// the full value.
    pub open spec fn wf(self) -> bool {
        &&& self.body.len() >= 1
        &&& self.head == self.body[0]
        &&& self.length == self.body.len()
        &&& self.health <= 100
    }
}

/// What a board is, as a mathematical value.
pub struct BoardModel {
    pub height: u32,
    pub width: u32,
    pub food: Seq<Coord>,
    pub snakes: Seq<SnakeModel>,
    pub hazards: Seq<Coord>,
}

/// The grid and everything on it for the current turn.
#[derive(Clone, Debug, PartialEq, Eq)]
pub struct Board {
    pub height: u32,
    pub width: u32,
    pub food: Vec<Coord>,
    pub snakes: Vec<Battlesnake>,
    pub hazards: Vec<Coord>,
}

impl View for Board {
    type V = BoardModel;

    open spec fn view(&self) -> BoardModel {
        BoardModel {
            height: self.height,
            width: self.width,
            food: self.food@,
            snakes: Seq::new(self.snakes@.len(), |i: int| self.snakes@[i]@),
            hazards: self.hazards@,
        }
    }
}

/// The game a turn belongs to. `timeout` is the time allowed for one turn,
/// in milliseconds.
#[derive(Clone, Debug, PartialEq, Eq)]
pub struct Game {
    pub id: String,
    pub timeout: u32,
}

/// One turn's request: the game, the turn number, the board and the snake
/// that is being steered.
#[derive(Clone, Debug, PartialEq, Eq)]
pub struct GameState {
    pub game: Game,
    pub turn: u32,
    pub board: Board,
    pub you: Battlesnake,
}

} // verus!
