use vstd::prelude::*;
use crate::grid::{Direction, Position, has_room, walk, manhattan, lemma_walk_distance};
use crate::keys::{Directions, count_spec};
use crate::random::draw_directions;

verus! {

/// Role tag of the single player entity.
#[derive(Debug, Clone, Copy, PartialEq, Eq, Structural)]
pub struct Player;

/// Role tag of an enemy entity.
#[derive(Debug, Clone, Copy, PartialEq, Eq, Structural)]
pub struct Enemy;

/// A marker that one discrete player move happened.
#[derive(Debug, Clone, Copy, PartialEq, Eq, Structural)]
pub struct GameTickEvent;

/// The player: a name, an inventory of item counters and a grid cell.
pub struct PlayerBundle {
    pub name: String,
    pub items: Vec<u8>,
    pub position: Position,
    pub tag: Player,
}

/// An enemy: a name, health and experience for battles, and a grid cell.
pub struct EnemyBundle {
    pub name: String,
    pub health: u16,
    pub experience: u16,
    pub position: Position,
    pub tag: Enemy,
}

/// Health an enemy starts with.
pub const DEFAULT_HEALTH: u16 = 100;

impl PlayerBundle {
    pub fn new(name: String, items: Vec<u8>, position: Position) -> (r: PlayerBundle)
        ensures
            r.name == name,
            r.items == items,
            r.position == position,
    {
        PlayerBundle { name, items, position, tag: Player }
    }
}

impl EnemyBundle {
    /// A fresh enemy, with default health and no experience.
    pub fn new(name: String, position: Position) -> (r: EnemyBundle)
        ensures
            r.name == name,
            r.health == DEFAULT_HEALTH,
            r.experience == 0,
            r.position == position,
    {
        EnemyBundle { name, health: DEFAULT_HEALTH, experience: 0, position, tag: Enemy }
    }
}

/// The freshly pressed directions, in the order they are applied: up, left,
/// down, right.
pub open spec fn pressed_seq(s: Directions) -> Seq<Direction> {
    let s0: Seq<Direction> = if s.up { seq![Direction::Up] } else { Seq::empty() };
    let s1 = if s.left { s0.push(Direction::Left) } else { s0 };
    let s2 = if s.down { s1.push(Direction::Down) } else { s1 };
    if s.right { s2.push(Direction::Right) } else { s2 }
}

/// Takes one step in direction `d` and sends one tick for it.
fn step_and_tick(
    player: &mut PlayerBundle,
    d: Direction,
    ticks: &mut Vec<GameTickEvent>,
    Ghost(start): Ghost<Position>,
    Ghost(done): Ghost<Seq<Direction>>,
)
    requires
        done.len() < 4,
        has_room(start, 4),
        old(player).position == walk(start, done),
    ensures
        final(player).position == walk(start, done.push(d)),
        final(player).name == old(player).name,
        final(player).items == old(player).items,
        final(ticks)@.len() == old(ticks)@.len() + 1,
{
    proof {
        lemma_walk_distance(start, done, 4 - done.len());
        assert(done.push(d).drop_last() =~= done);
    }
    player.position = player.position.step(d);
    ticks.push(GameTickEvent);
}

/// Moves the player one cell for each direction freshly pressed this frame,
/// in the order up, left, down, right, and sends one tick per move.
pub fn move_player(player: &mut PlayerBundle, pressed: Directions, ticks: &mut Vec<GameTickEvent>)
    requires
        has_room(old(player).position, 4),
    ensures
        final(player).position == walk(old(player).position, pressed_seq(pressed)),
        final(player).name == old(player).name,
        final(player).items == old(player).items,
        final(ticks)@.len() == old(ticks)@.len() + count_spec(pressed),
        pressed_seq(pressed).len() == count_spec(pressed),
{
    let ghost start = player.position;
    let ghost mut done: Seq<Direction> = Seq::empty();
    assert(walk(start, done) == start);
    if pressed.up {
        step_and_tick(player, Direction::Up, ticks, Ghost(start), Ghost(done));
        proof { done = done.push(Direction::Up); }
    }
    if pressed.left {
        step_and_tick(player, Direction::Left, ticks, Ghost(start), Ghost(done));
        proof { done = done.push(Direction::Left); }
    }
    if pressed.down {
        step_and_tick(player, Direction::Down, ticks, Ghost(start), Ghost(done));
        proof { done = done.push(Direction::Down); }
    }
    if pressed.right {
        step_and_tick(player, Direction::Right, ticks, Ghost(start), Ghost(done));
        proof { done = done.push(Direction::Right); }
    }
    assert(done =~= pressed_seq(pressed));
}

/// The directions enemy `i` of `m` takes over `k` ticks, when the draws are
/// made tick by tick and, within a tick, enemy by enemy.
pub open spec fn column(ds: Seq<Direction>, m: int, i: int, k: int) -> Seq<Direction> {
    Seq::new(k as nat, |t: int| ds[t * m + i])
}

/// Enemy `e` after taking the steps of `path`: only its position changes.
pub open spec fn moved_along(before: EnemyBundle, after: EnemyBundle, path: Seq<Direction>) -> bool {
    &&& after.position == walk(before.position, path)
    &&& after.name == before.name
    &&& after.health == before.health
    &&& after.experience == before.experience
}

/// Every enemy of `before` has room for `k` more steps.
pub open spec fn enemies_have_room(enemies: Seq<EnemyBundle>, k: int) -> bool {
    forall|i: int| 0 <= i < enemies.len() ==> has_room(#[trigger] enemies[i].position, k)
}

/// Moves every enemy once per tick, taking the directions from `draws`: for
/// tick `t` and enemy `i` of `m`, the draw at `t * m + i`.
pub fn apply_enemy_moves(enemies: &mut Vec<EnemyBundle>, ticks: usize, draws: &Vec<Direction>)
    requires
        draws@.len() == ticks * old(enemies)@.len(),
        enemies_have_room(old(enemies)@, ticks as int),
    ensures
        final(enemies)@.len() == old(enemies)@.len(),
        forall|i: int|
            0 <= i < old(enemies)@.len() ==> moved_along(
                #[trigger] old(enemies)@[i],
                final(enemies)@[i],
                column(draws@, old(enemies)@.len() as int, i, ticks as int),
            ),
{
    let m = enemies.len();
    let n = draws.len();
    let ghost start = enemies@;
    let mut t: usize = 0;
    proof {
        assert forall|j: int| 0 <= j < m implies moved_along(
            #[trigger] start[j],
            enemies@[j],
            column(draws@, m as int, j, 0),
        ) by {
            assert(column(draws@, m as int, j, 0) =~= Seq::<Direction>::empty());
        }
    }
    while t < ticks
        invariant
            t <= ticks,
            enemies@.len() == m,
            start.len() == m,
            draws@.len() == ticks * m,
            n == draws@.len(),
            enemies_have_room(start, ticks as int),
            forall|j: int|
                0 <= j < m ==> moved_along(
                    #[trigger] start[j],
                    enemies@[j],
                    column(draws@, m as int, j, t as int),
                ),
        decreases ticks - t,
    {
        let mut i: usize = 0;
        while i < m
            invariant
                t < ticks,
                i <= m,
                enemies@.len() == m,
                start.len() == m,
                draws@.len() == ticks * m,
                n == draws@.len(),
            n == draws@.len(),
                enemies_have_room(start, ticks as int),
                forall|j: int|
                    0 <= j < i ==> moved_along(
                        #[trigger] start[j],
                        enemies@[j],
                        column(draws@, m as int, j, t + 1),
                    ),
                forall|j: int|
                    i <= j < m ==> moved_along(
                        #[trigger] start[j],
                        enemies@[j],
                        column(draws@, m as int, j, t as int),
                    ),
            decreases m - i,
        {
            proof {
                assert(t * m + i < ticks * m && 0 <= t * m) by (nonlinear_arith)
                    requires
                        t < ticks,
                        i < m,
                ;
            }
            let d = draws[t * m + i];
            let ghost before = column(draws@, m as int, i as int, t as int);
            let ghost after = column(draws@, m as int, i as int, t + 1);
            proof {
                assert(after.drop_last() =~= before);
                assert(after.last() == d);
                assert(has_room(start[i as int].position, ticks as int));
                lemma_walk_distance(start[i as int].position, before, ticks - t);
            }
            let p = enemies[i].position.step(d);
            enemies[i].position = p;
            i = i + 1;
        }
        t = t + 1;
    }
}

/// Drains the tick events and, for each of them, moves every enemy one step
/// in a direction drawn at random. Returns the number of single moves made,
/// one per enemy per tick.
pub fn move_enemy(enemies: &mut Vec<EnemyBundle>, ticks: &mut Vec<GameTickEvent>) -> (moves: usize)
    requires
        enemies_have_room(old(enemies)@, old(ticks)@.len() as int),
        old(ticks)@.len() * old(enemies)@.len() <= usize::MAX,
    ensures
        moves == old(ticks)@.len() * old(enemies)@.len(),
        final(ticks)@.len() == 0,
        final(enemies)@.len() == old(enemies)@.len(),
        exists|ds: Seq<Direction>|
            ds.len() == moves && forall|i: int|
                0 <= i < old(enemies)@.len() ==> moved_along(
                    #[trigger] old(enemies)@[i],
                    final(enemies)@[i],
                    column(ds, old(enemies)@.len() as int, i, old(ticks)@.len() as int),
                ),
        forall|i: int|
            0 <= i < old(enemies)@.len() ==> manhattan(
                #[trigger] old(enemies)@[i].position,
                final(enemies)@[i].position,
            ) <= old(ticks)@.len(),
{
    let k = ticks.len();
    let m = enemies.len();
    let ghost before = enemies@;
    let draws = draw_directions(k * m);
    apply_enemy_moves(enemies, k, &draws);
    ticks.clear();
    proof {
        assert forall|i: int| 0 <= i < m implies manhattan(
            #[trigger] before[i].position,
            enemies@[i].position,
        ) <= k by {
            let path = column(draws@, m as int, i, k as int);
            assert(moved_along(before[i], enemies@[i], path));
            lemma_walk_distance(before[i].position, path, 0);
        }
    }
    k * m
}

} // verus!
