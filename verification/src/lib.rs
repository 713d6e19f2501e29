//! Decision engine for a snake on a turn-based grid game: which moves are
//! legal, what a move does to the snake, how good a position is, and which
//! first move a bounded look-ahead prefers.

pub mod clock;
pub mod decide;
pub mod grid;
pub mod moves;
pub mod reach;
pub mod score;
pub mod search;
pub mod state;
pub mod transition;
