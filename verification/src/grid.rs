//! Cells of the grid and the four directions a snake can take.

use vstd::prelude::*;

verus! {

/// A cell of the grid; `(0, 0)` is the bottom-left corner.
#[derive(Clone, Copy, Debug, PartialEq, Eq, Structural)]
pub struct Coord {
    pub x: u32,
    pub y: u32,
}

/// One of the four cardinal directions. `Up` raises `y`, `Right` raises `x`.
#[derive(Clone, Copy, Debug, PartialEq, Eq, Hash, Structural)]
pub enum Move {
    Up,
    Down,
    Left,
    Right,
}

impl Move {
    /// Change of `x` that the direction stands for.
    pub open spec fn dx(self) -> int {
        match self {
            Move::Left => -1,
            Move::Right => 1,
            _ => 0,
        }
    }

    /// Change of `y` that the direction stands for.
    pub open spec fn dy(self) -> int {
        match self {
            Move::Down => -1,
            Move::Up => 1,
            _ => 0,
        }
    }
}

/// An integer held within the range of a grid coordinate.
pub open spec fn clamp_axis(v: int) -> u32 {
    if v < 0 {
        0u32
    } else if v > u32::MAX {
        u32::MAX
    } else {
        v as u32
    }
}

/// The cell one step from `c` in direction `mv`. A step that would leave the
/// range of a coordinate stays where it is on that axis.
pub open spec fn step(c: Coord, mv: Move) -> Coord {
    Coord { x: clamp_axis(c.x + mv.dx()), y: clamp_axis(c.y + mv.dy()) }
}

/// A step from `c` in direction `mv` stays within the range of a
/// coordinate, so that `step` gives the cell that the step leads to.
pub open spec fn step_in_range(c: Coord, mv: Move) -> bool {
    &&& 0 <= c.x + mv.dx() <= u32::MAX
    &&& 0 <= c.y + mv.dy() <= u32::MAX
}

impl Coord {
    /// Whether a step in direction `mv` stays within the range of a
    /// coordinate.
    pub fn can_step(&self, mv: Move) -> (ok: bool)
        ensures
            ok == step_in_range(*self, mv),
    {
        match mv {
            Move::Up => self.y < u32::MAX,
            Move::Down => self.y > 0,
            Move::Left => self.x > 0,
            Move::Right => self.x < u32::MAX,
        }
    }

    /// The neighbouring cell in direction `mv`, saturating at the ends of the
    /// coordinate range.
    pub fn shifted(&self, mv: Move) -> (c: Coord)
        ensures
            c == step(*self, mv),
    {
        match mv {
            Move::Up => Coord { x: self.x, y: self.y.saturating_add(1) },
            Move::Down => Coord { x: self.x, y: self.y.saturating_sub(1) },
            Move::Left => Coord { x: self.x.saturating_sub(1), y: self.y },
            Move::Right => Coord { x: self.x.saturating_add(1), y: self.y },
        }
    }
}

} // verus!
