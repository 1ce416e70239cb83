//! The discrete toroidal coordinate space: cells, headings, and wrap-around.

use vstd::prelude::*;

verus! {

/// A cell of the grid. `x` grows to the right, `y` grows upward; the origin
/// is the centre of the playing field.
#[derive(Clone, Copy, PartialEq, Eq, Structural, Debug)]
pub struct Coord {
    pub x: i32,
    pub y: i32,
}

/// The snake's heading; one cell is travelled per tick.
#[derive(Clone, Copy, PartialEq, Eq, Structural, Debug)]
pub enum Direction {
    Up,
    Down,
    Left,
    Right,
}

impl Default for Direction {
    /// The snake initially heads up.
    fn default() -> (d: Direction)
        ensures
            d == Direction::Up,
    {
        Direction::Up
    }
}

/// Whether `c` lies on the grid with the given half-extents: both bounds are
/// inclusive, a consequence of the wrap rule below.
pub open spec fn in_bounds(c: Coord, half_width: i32, half_height: i32) -> bool {
    &&& -half_width <= c.x <= half_width
    &&& -half_height <= c.y <= half_height
}

/// Wrap normalisation: a coordinate one step past an edge re-enters at the
/// opposite edge.  At most one branch fires, matching a move that changes a
/// single axis by one cell.
pub open spec fn spec_wrap(c: Coord, half_width: i32, half_height: i32) -> Coord {
    if c.x > half_width {
        Coord { x: (-half_width) as i32, y: c.y }
    } else if c.x < -half_width {
        Coord { x: half_width, y: c.y }
    } else if c.y > half_height {
        Coord { x: c.x, y: (-half_height) as i32 }
    } else if c.y < -half_height {
        Coord { x: c.x, y: half_height }
    } else {
        c
    }
}

/// `c` displaced one cell along `d`, before wrap normalisation.
pub open spec fn spec_moved(c: Coord, d: Direction) -> Coord {
    match d {
        Direction::Up => Coord { x: c.x, y: (c.y + 1) as i32 },
        Direction::Down => Coord { x: c.x, y: (c.y - 1) as i32 },
        Direction::Left => Coord { x: (c.x - 1) as i32, y: c.y },
        Direction::Right => Coord { x: (c.x + 1) as i32, y: c.y },
    }
}

/// One full movement step: displace one cell along `d`, then wrap.
pub open spec fn spec_step(c: Coord, d: Direction, half_width: i32, half_height: i32) -> Coord {
    spec_wrap(spec_moved(c, d), half_width, half_height)
}

/// Wrap invariant: stepping from any in-bounds cell, in any direction, lands
/// in bounds again.
pub proof fn lemma_step_in_bounds(c: Coord, d: Direction, half_width: i32, half_height: i32)
    requires
        0 <= half_width < i32::MAX,
        0 <= half_height < i32::MAX,
        in_bounds(c, half_width, half_height),
    ensures
        in_bounds(spec_step(c, d, half_width, half_height), half_width, half_height),
{
}

/// Applies the wrap rule to a coordinate.
pub fn wrap(c: Coord, half_width: i32, half_height: i32) -> (r: Coord)
    requires
        0 <= half_width,
        0 <= half_height,
    ensures
        r == spec_wrap(c, half_width, half_height),
{
    if c.x > half_width {
        Coord { x: -half_width, y: c.y }
    } else if c.x < -half_width {
        Coord { x: half_width, y: c.y }
    } else if c.y > half_height {
        Coord { x: c.x, y: -half_height }
    } else if c.y < -half_height {
        Coord { x: c.x, y: half_height }
    } else {
        c
    }
}

/// Moves `c` one cell along `d` and wraps; the result is always in bounds.
pub fn step(c: Coord, d: Direction, half_width: i32, half_height: i32) -> (r: Coord)
    requires
        0 <= half_width < i32::MAX,
        0 <= half_height < i32::MAX,
        in_bounds(c, half_width, half_height),
    ensures
        r == spec_step(c, d, half_width, half_height),
        in_bounds(r, half_width, half_height),
{
    let moved = match d {
        Direction::Up => Coord { x: c.x, y: c.y + 1 },
        Direction::Down => Coord { x: c.x, y: c.y - 1 },
        Direction::Left => Coord { x: c.x - 1, y: c.y },
        Direction::Right => Coord { x: c.x + 1, y: c.y },
    };
    wrap(moved, half_width, half_height)
}

} // verus!
