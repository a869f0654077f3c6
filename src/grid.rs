use vstd::prelude::*;

verus! {

/// One of the four axis directions a step can take.
#[derive(Debug, Clone, Copy, PartialEq, Eq, Structural)]
pub enum Direction {
    Up,
    Down,
    Left,
    Right,
}

/// A grid cell, in the grid's own coordinates (one unit per cell).
#[derive(Debug, Clone, Copy, PartialEq, Eq, Structural)]
pub struct Position {
    pub x: i64,
    pub y: i64,
}

/// The unit offset of a direction along the x axis.
pub open spec fn dx(d: Direction) -> int {
    match d {
        Direction::Left => -1,
        Direction::Right => 1,
        _ => 0,
    }
}

/// The unit offset of a direction along the y axis.
pub open spec fn dy(d: Direction) -> int {
    match d {
        Direction::Up => 1,
        Direction::Down => -1,
        _ => 0,
    }
}

/// The reverse of a direction.
pub open spec fn opposite_spec(d: Direction) -> Direction {
    match d {
        Direction::Up => Direction::Down,
        Direction::Down => Direction::Up,
        Direction::Left => Direction::Right,
        Direction::Right => Direction::Left,
    }
}

/// Both coordinates of `p` are at least `n` away from the ends of `i64`.
pub open spec fn has_room(p: Position, n: int) -> bool {
    i64::MIN + n <= p.x <= i64::MAX - n && i64::MIN + n <= p.y <= i64::MAX - n
}

/// The cell one unit from `p` in direction `d`.
pub open spec fn step_spec(p: Position, d: Direction) -> Position
    recommends
        has_room(p, 1),
{
    Position { x: (p.x + dx(d)) as i64, y: (p.y + dy(d)) as i64 }
}

/// The cell reached from `p` by taking the steps of `ds` in order.
pub open spec fn walk(p: Position, ds: Seq<Direction>) -> Position
    decreases ds.len(),
{
    if ds.len() == 0 {
        p
    } else {
        step_spec(walk(p, ds.drop_last()), ds.last())
    }
}

/// Grid distance between two cells, along grid lines.
pub open spec fn manhattan(a: Position, b: Position) -> int {
    let ddx = a.x - b.x;
    let ddy = a.y - b.y;
    (if ddx < 0 { -ddx } else { ddx }) + (if ddy < 0 { -ddy } else { ddy })
}

impl Position {
    pub fn new(x: i64, y: i64) -> (r: Position)
        ensures
            r.x == x,
            r.y == y,
    {
        Position { x, y }
    }

    /// Moves one cell in direction `d`; no map edge is applied.
    pub fn step(self, d: Direction) -> (r: Position)
        requires
            has_room(self, 1),
        ensures
            r == step_spec(self, d),
    {
        match d {
            Direction::Up => Position { x: self.x, y: self.y + 1 },
            Direction::Down => Position { x: self.x, y: self.y - 1 },
            Direction::Left => Position { x: self.x - 1, y: self.y },
            Direction::Right => Position { x: self.x + 1, y: self.y },
        }
    }
}

impl Direction {
    /// The reverse direction.
    pub fn opposite(self) -> (r: Direction)
        ensures
            r == opposite_spec(self),
    {
        match self {
            Direction::Up => Direction::Down,
            Direction::Down => Direction::Up,
            Direction::Left => Direction::Right,
            Direction::Right => Direction::Left,
        }
    }

    /// The direction numbered `i` in the order right, left, up, down.
    pub fn from_index(i: u32) -> (r: Direction)
        requires
            i < 4,
        ensures
            r == direction_of_index(i as int),
    {
        if i == 0 {
            Direction::Right
        } else if i == 1 {
            Direction::Left
        } else if i == 2 {
            Direction::Up
        } else {
            Direction::Down
        }
    }
}

/// The numbering of directions used for random draws.
pub open spec fn direction_of_index(i: int) -> Direction {
    if i == 0 {
        Direction::Right
    } else if i == 1 {
        Direction::Left
    } else if i == 2 {
        Direction::Up
    } else {
        Direction::Down
    }
}

/// A step followed by a step in the opposite direction returns to the start.
pub proof fn lemma_step_round_trip(p: Position, d: Direction)
    requires
        has_room(p, 1),
    ensures
        step_spec(step_spec(p, d), opposite_spec(d)) == p,
{
}

/// A walk of `n` steps ends within grid distance `n` of its start, and keeps
/// whatever room its start had beyond those `n` steps.
pub proof fn lemma_walk_distance(p: Position, ds: Seq<Direction>, room: int)
    requires
        0 <= room,
        has_room(p, room + ds.len()),
    ensures
        manhattan(p, walk(p, ds)) <= ds.len(),
        has_room(walk(p, ds), room),
    decreases ds.len(),
{
    if ds.len() > 0 {
        lemma_walk_distance(p, ds.drop_last(), room + 1);
    }
}

} // verus!
