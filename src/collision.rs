use vstd::prelude::*;
use crate::grid::Position;
use crate::entities::EnemyBundle;

verus! {

/// When a player and an enemy count as touching.
#[derive(Debug, Clone, Copy, PartialEq, Eq, Structural)]
pub enum CollisionPolicy {
    /// The two occupy the same cell.
    Exact,
    /// Square hitboxes of the given side, centred on each cell, overlap.
    Overlap(u32),
}

pub open spec fn abs_diff(a: i64, b: i64) -> int {
    if a < b { b - a } else { a - b }
}

/// Whether `a` and `b` touch under `policy`.
pub open spec fn collides_spec(policy: CollisionPolicy, a: Position, b: Position) -> bool {
    match policy {
        CollisionPolicy::Exact => a == b,
        CollisionPolicy::Overlap(side) => abs_diff(a.x, b.x) < side && abs_diff(a.y, b.y) < side,
    }
}

/// Whether some enemy of `enemies` touches `player` under `policy`.
pub open spec fn any_collision(policy: CollisionPolicy, player: Position, enemies: Seq<EnemyBundle>) -> bool {
    exists|i: int| 0 <= i < enemies.len() && collides_spec(policy, player, #[trigger] enemies[i].position)
}

fn distance(a: i64, b: i64) -> (r: u64)
    ensures
        r == abs_diff(a, b),
{
    if a < b {
        (b as i128 - a as i128) as u64
    } else {
        (a as i128 - b as i128) as u64
    }
}

impl CollisionPolicy {
    pub fn collides(&self, a: Position, b: Position) -> (r: bool)
        ensures
            r == collides_spec(*self, a, b),
    {
        match *self {
            CollisionPolicy::Exact => a == b,
            CollisionPolicy::Overlap(side) => distance(a.x, b.x) < side as u64 && distance(a.y, b.y)
                < side as u64,
        }
    }
}

/// The first enemy, in registry order, that touches the player, if any.
pub fn battle_check(policy: CollisionPolicy, player: Position, enemies: &Vec<EnemyBundle>) -> (r: Option<usize>)
    ensures
        r.is_some() == any_collision(policy, player, enemies@),
        r matches Some(i) ==> i < enemies@.len() && collides_spec(policy, player, enemies@[i as int].position)
            && forall|j: int| 0 <= j < i ==> !collides_spec(policy, player, #[trigger] enemies@[j].position),
{
    let mut i: usize = 0;
    while i < enemies.len()
        invariant
            i <= enemies@.len(),
            forall|j: int| 0 <= j < i ==> !collides_spec(policy, player, #[trigger] enemies@[j].position),
        decreases enemies@.len() - i,
    {
        if policy.collides(player, enemies[i].position) {
            return Some(i);
        }
        i = i + 1;
    }
    None
}

/// Detection does not depend on the order in which enemies are registered:
/// two registries holding the same enemies in any order agree.
pub proof fn lemma_detection_order_free(
    policy: CollisionPolicy,
    player: Position,
    a: Seq<EnemyBundle>,
    b: Seq<EnemyBundle>,
)
    requires
        a.to_multiset() =~= b.to_multiset(),
    ensures
        any_collision(policy, player, a) == any_collision(policy, player, b),
{
    a.to_multiset_ensures();
    b.to_multiset_ensures();
    if any_collision(policy, player, a) {
        let i = choose|i: int| 0 <= i < a.len() && collides_spec(policy, player, #[trigger] a[i].position);
        assert(a.contains(a[i]));
        assert(a.to_multiset().count(a[i]) > 0);
        assert(b.to_multiset().count(a[i]) > 0);
        assert(b.contains(a[i]));
        let j = choose|j: int| 0 <= j < b.len() && b[j] == a[i];
        assert(collides_spec(policy, player, b[j].position));
    }
    if any_collision(policy, player, b) {
        let i = choose|i: int| 0 <= i < b.len() && collides_spec(policy, player, #[trigger] b[i].position);
        assert(b.contains(b[i]));
        assert(b.to_multiset().count(b[i]) > 0);
        assert(a.to_multiset().count(b[i]) > 0);
        assert(a.contains(b[i]));
        let j = choose|j: int| 0 <= j < a.len() && a[j] == b[i];
        assert(collides_spec(policy, player, a[j].position));
    }
}

} // verus!
