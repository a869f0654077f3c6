use vstd::prelude::*;
use crate::grid::Direction;

verus! {

/// A set of the four direction keys, one flag per direction.
#[derive(Debug, Clone, Copy, PartialEq, Eq, Structural)]
pub struct Directions {
    pub up: bool,
    pub down: bool,
    pub left: bool,
    pub right: bool,
}

/// Whether `d` is in the set.
pub open spec fn has_dir(s: Directions, d: Direction) -> bool {
    match d {
        Direction::Up => s.up,
        Direction::Down => s.down,
        Direction::Left => s.left,
        Direction::Right => s.right,
    }
}

/// How many directions the set holds.
pub open spec fn count_spec(s: Directions) -> nat {
    (if s.up { 1nat } else { 0nat }) + (if s.left { 1nat } else { 0nat })
        + (if s.down { 1nat } else { 0nat }) + (if s.right { 1nat } else { 0nat })
}

/// The keys held now that were not held in the frame before.
pub open spec fn edges(before: Directions, now: Directions) -> Directions {
    Directions {
        up: now.up && !before.up,
        down: now.down && !before.down,
        left: now.left && !before.left,
        right: now.right && !before.right,
    }
}

impl Directions {
    pub open spec fn none_spec() -> Directions {
        Directions { up: false, down: false, left: false, right: false }
    }

    /// The empty set.
    pub fn none() -> (r: Directions)
        ensures
            r == Directions::none_spec(),
            count_spec(r) == 0,
            forall|d: Direction| !has_dir(r, d),
    {
        Directions { up: false, down: false, left: false, right: false }
    }

    /// The set that holds only `d`.
    pub fn only(d: Direction) -> (r: Directions)
        ensures
            r == (Directions {
                up: d == Direction::Up,
                down: d == Direction::Down,
                left: d == Direction::Left,
                right: d == Direction::Right,
            }),
            forall|e: Direction| has_dir(r, e) <==> e == d,
            count_spec(r) == 1,
    {
        Directions {
            up: d == Direction::Up,
            down: d == Direction::Down,
            left: d == Direction::Left,
            right: d == Direction::Right,
        }
    }

    /// The set that holds all four directions.
    pub fn all() -> (r: Directions)
        ensures
            r == (Directions { up: true, down: true, left: true, right: true }),
            forall|d: Direction| has_dir(r, d),
            count_spec(r) == 4,
    {
        Directions { up: true, down: true, left: true, right: true }
    }

    pub fn contains(&self, d: Direction) -> (r: bool)
        ensures
            r == has_dir(*self, d),
    {
        match d {
            Direction::Up => self.up,
            Direction::Down => self.down,
            Direction::Left => self.left,
            Direction::Right => self.right,
        }
    }

    pub fn count(&self) -> (r: usize)
        ensures
            r == count_spec(*self),
            r <= 4,
    {
        let mut n: usize = 0;
        if self.up {
            n = n + 1;
        }
        if self.left {
            n = n + 1;
        }
        if self.down {
            n = n + 1;
        }
        if self.right {
            n = n + 1;
        }
        n
    }
}

/// Turns the keys held in each frame into the keys freshly pressed in it.
pub struct KeyTracker {
    pub held: Directions,
}

impl KeyTracker {
    /// A tracker for which no key was held before.
    pub fn new() -> (r: KeyTracker)
        ensures
            r.held == Directions::none_spec(),
    {
        KeyTracker { held: Directions::none() }
    }

    /// Records the keys held in this frame and returns those that went from
    /// released to pressed since the frame before.
    pub fn just_pressed(&mut self, now: Directions) -> (r: Directions)
        ensures
            r == edges(old(self).held, now),
            final(self).held == now,
    {
        let r = Directions {
            up: now.up && !self.held.up,
            down: now.down && !self.held.down,
            left: now.left && !self.held.left,
            right: now.right && !self.held.right,
        };
        self.held = now;
        r
    }
}

/// The number of frames of `frames` in which `d` was freshly pressed, for a
/// tracker that held `before` ahead of them.
pub open spec fn presses(before: Directions, frames: Seq<Directions>, d: Direction) -> nat
    decreases frames.len(),
{
    if frames.len() == 0 {
        0
    } else {
        presses(before, frames.drop_last(), d) + if has_dir(edges(
            if frames.len() == 1 { before } else { frames[frames.len() - 2] },
            frames.last(),
        ), d) {
            1nat
        } else {
            0nat
        }
    }
}

/// Holding a key across any number of consecutive frames without releasing it
/// presses it at most once, in the first of those frames; if it was already
/// held before them, not at all.
pub proof fn lemma_held_key_presses_once(before: Directions, frames: Seq<Directions>, d: Direction)
    requires
        forall|i: int| 0 <= i < frames.len() ==> has_dir(#[trigger] frames[i], d),
    ensures
        presses(before, frames, d) <= 1,
        has_dir(before, d) ==> presses(before, frames, d) == 0,
    decreases frames.len(),
{
    let prev = if frames.len() == 1 { before } else { frames[frames.len() - 2] };
    if frames.len() > 0 {
        let rest = frames.drop_last();
        assert forall|i: int| 0 <= i < rest.len() implies has_dir(#[trigger] rest[i], d) by {
            assert(rest[i] == frames[i]);
        }
        lemma_held_key_presses_once(before, rest, d);
        assert(has_dir(edges(prev, frames.last()), d) <==> has_dir(frames.last(), d) && !has_dir(prev, d))
            by {
            match d {
                Direction::Up => {},
                Direction::Down => {},
                Direction::Left => {},
                Direction::Right => {},
            }
        }
        if frames.len() > 1 {
            assert(has_dir(frames[frames.len() - 2], d));
        } else {
            assert(presses(before, rest, d) == 0);
        }
    }
}

} // verus!
