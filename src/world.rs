use vstd::prelude::*;
use crate::grid::{Direction, Position, has_room, walk, manhattan};
use crate::keys::{Directions, KeyTracker, count_spec, edges};
use crate::entities::{
    PlayerBundle, EnemyBundle, GameTickEvent, pressed_seq, column, moved_along, enemies_have_room,
    move_player, move_enemy, apply_enemy_moves,
};
use crate::collision::{CollisionPolicy, any_collision, collides_spec, battle_check};
use crate::state::{AppState, ModeStack};

verus! {

/// Everything one step of the game reads and writes: the player, the enemies,
/// the tick channel, the game modes, the key state and the collision policy.
pub struct World {
    pub player: PlayerBundle,
    pub enemies: Vec<EnemyBundle>,
    pub ticks: Vec<GameTickEvent>,
    pub modes: ModeStack,
    pub keys: KeyTracker,
    pub policy: CollisionPolicy,
}

/// `r` names the first enemy of `enemies` touching `player`, or none does.
pub open spec fn first_collision(
    policy: CollisionPolicy,
    player: Position,
    enemies: Seq<EnemyBundle>,
    r: Option<usize>,
) -> bool {
    &&& r.is_some() == any_collision(policy, player, enemies)
    &&& r matches Some(i) ==> i < enemies.len() && collides_spec(policy, player, enemies[i as int].position)
        && forall|j: int| 0 <= j < i ==> !collides_spec(policy, player, #[trigger] enemies[j].position)
}

/// The mode stack after a step whose detection gave `r`.
pub open spec fn modes_after(before: Seq<AppState>, r: Option<usize>) -> Seq<AppState> {
    if r is Some {
        before.push(AppState::Battle)
    } else {
        before
    }
}

impl World {
    /// Between steps the mode stack is well formed and the tick channel is
    /// empty.
    pub open spec fn wf(&self) -> bool {
        &&& self.modes.wf()
        &&& self.modes.pending() is None
        &&& self.ticks@.len() == 0
    }

    /// A world in the overworld mode, with no key held yet.
    pub fn new(player: PlayerBundle, enemies: Vec<EnemyBundle>, policy: CollisionPolicy) -> (r: World)
        ensures
            r.wf(),
            r.player == player,
            r.enemies == enemies,
            r.policy == policy,
            r.modes.stack() == seq![AppState::OverWorld],
            r.keys.held == Directions::none_spec(),
    {
        World {
            player,
            enemies,
            ticks: Vec::new(),
            modes: ModeStack::new(),
            keys: KeyTracker::new(),
            policy,
        }
    }

    pub fn current_state(&self) -> (r: AppState)
        requires
            self.wf(),
        ensures
            r == self.modes.current_spec(),
    {
        self.modes.current_state()
    }

    /// Detects an encounter on the current positions and, on one, enters
    /// battle; the transition is applied once, at the end of the step.
    fn finish_step(&mut self) -> (r: Option<usize>)
        requires
            old(self).modes.wf(),
            old(self).modes.pending() is None,
        ensures
            first_collision(old(self).policy, old(self).player.position, old(self).enemies@, r),
            final(self).modes.wf(),
            final(self).modes.pending() is None,
            final(self).modes.stack() == modes_after(old(self).modes.stack(), r),
            final(self).player == old(self).player,
            final(self).enemies == old(self).enemies,
            final(self).ticks == old(self).ticks,
            final(self).keys == old(self).keys,
            final(self).policy == old(self).policy,
    {
        let hit = battle_check(self.policy, self.player.position, &self.enemies);
        if hit.is_some() {
            self.modes.request_transition(AppState::Battle);
        }
        self.modes.apply_transition();
        hit
    }

    /// One step of the overworld with the freshly pressed keys and the
    /// enemies' directions given: the player moves, then each enemy moves
    /// once per player move, taking the draw at `t * m + i` for tick `t` and
    /// enemy `i` of `m`, then an encounter is looked for. Returns the first
    /// enemy touching the player, on which battle is entered. Outside the
    /// overworld nothing moves and `None` is returned.
    pub fn advance(&mut self, pressed: Directions, draws: &Vec<Direction>) -> (r: Option<usize>)
        requires
            old(self).wf(),
            draws@.len() == count_spec(pressed) * old(self).enemies@.len(),
            has_room(old(self).player.position, 4),
            enemies_have_room(old(self).enemies@, 4),
        ensures
            final(self).wf(),
            final(self).policy == old(self).policy,
            final(self).keys == old(self).keys,
            final(self).player.name == old(self).player.name,
            final(self).player.items == old(self).player.items,
            final(self).enemies@.len() == old(self).enemies@.len(),
            old(self).modes.current_spec() != AppState::Menu ==> final(self).modes.current_spec()
                != AppState::Menu,
            old(self).modes.current_spec() != AppState::OverWorld ==> {
                &&& r is None
                &&& final(self).player.position == old(self).player.position
                &&& final(self).enemies == old(self).enemies
                &&& final(self).modes.stack() == old(self).modes.stack()
            },
            old(self).modes.current_spec() == AppState::OverWorld ==> {
                &&& r is Some ==> final(self).modes.current_spec() == AppState::Battle
                &&& final(self).player.position == walk(old(self).player.position, pressed_seq(pressed))
                &&& forall|i: int|
                    0 <= i < old(self).enemies@.len() ==> moved_along(
                        #[trigger] old(self).enemies@[i],
                        final(self).enemies@[i],
                        column(draws@, old(self).enemies@.len() as int, i, count_spec(pressed) as int),
                    )
                &&& first_collision(final(self).policy, final(self).player.position, final(self).enemies@, r)
                &&& final(self).modes.stack() == modes_after(old(self).modes.stack(), r)
            },
    {
        if self.modes.current_state() != AppState::OverWorld {
            return None;
        }
        move_player(&mut self.player, pressed, &mut self.ticks);
        let k = self.ticks.len();
        apply_enemy_moves(&mut self.enemies, k, draws);
        self.ticks.clear();
        self.finish_step()
    }

    /// One step of the game with the keys held in this frame: keys that went
    /// down since the frame before move the player, one cell and one tick
    /// each; every enemy then takes one random step per tick; then an
    /// encounter is looked for, and on one battle is entered. Returns the
    /// first enemy touching the player. Outside the overworld only the key
    /// state is recorded.
    pub fn step(&mut self, held: Directions) -> (r: Option<usize>)
        requires
            old(self).wf(),
            has_room(old(self).player.position, 4),
            enemies_have_room(old(self).enemies@, 4),
            4 * old(self).enemies@.len() <= usize::MAX,
        ensures
            final(self).wf(),
            final(self).keys.held == held,
            final(self).policy == old(self).policy,
            final(self).player.name == old(self).player.name,
            final(self).player.items == old(self).player.items,
            final(self).enemies@.len() == old(self).enemies@.len(),
            old(self).modes.current_spec() != AppState::Menu ==> final(self).modes.current_spec()
                != AppState::Menu,
            old(self).modes.current_spec() != AppState::OverWorld ==> {
                &&& r is None
                &&& final(self).player.position == old(self).player.position
                &&& final(self).enemies == old(self).enemies
                &&& final(self).modes.stack() == old(self).modes.stack()
            },
            old(self).modes.current_spec() == AppState::OverWorld ==> {
                let pressed = edges(old(self).keys.held, held);
                let m = old(self).enemies@.len();
                &&& final(self).player.position == walk(old(self).player.position, pressed_seq(pressed))
                &&& exists|ds: Seq<Direction>|
                    ds.len() == count_spec(pressed) * m && forall|i: int|
                        0 <= i < m ==> moved_along(
                            #[trigger] old(self).enemies@[i],
                            final(self).enemies@[i],
                            column(ds, m as int, i, count_spec(pressed) as int),
                        )
                &&& forall|i: int|
                    0 <= i < m ==> manhattan(
                        #[trigger] old(self).enemies@[i].position,
                        final(self).enemies@[i].position,
                    ) <= count_spec(pressed)
                &&& first_collision(final(self).policy, final(self).player.position, final(self).enemies@, r)
                &&& final(self).modes.stack() == modes_after(old(self).modes.stack(), r)
                &&& r is Some ==> final(self).modes.current_spec() == AppState::Battle
            },
    {
        let pressed = self.keys.just_pressed(held);
        if self.modes.current_state() != AppState::OverWorld {
            return None;
        }
        move_player(&mut self.player, pressed, &mut self.ticks);
        proof {
            let k = self.ticks@.len();
            let m = self.enemies@.len();
            assert(k * m <= 4 * m) by (nonlinear_arith)
                requires
                    k <= 4,
            ;
        }
        move_enemy(&mut self.enemies, &mut self.ticks);
        self.finish_step()
    }

    /// The names shown when battle is entered: the player's and that of the
    /// enemy it met.
    pub fn battle_participants(&self, enemy: usize) -> (r: (String, String))
        requires
            enemy < self.enemies@.len(),
        ensures
            r.0@ == self.player.name@,
            r.1@ == self.enemies@[enemy as int].name@,
    {
        (self.player.name.clone(), self.enemies[enemy].name.clone())
    }
}

/// The starting world: the player "player_name" at (5, 5) with three empty
/// item slots, one enemy "enemy_name" at (1, 1), and hitboxes one cell wide.
pub fn setup_world() -> (r: World)
    ensures
        r.wf(),
        r.modes.current_spec() == AppState::OverWorld,
        r.player.name@ == "player_name"@,
        r.player.items@ == seq![0u8, 0u8, 0u8],
        r.player.position == (Position { x: 5, y: 5 }),
        r.enemies@.len() == 1,
        r.enemies@[0].name@ == "enemy_name"@,
        r.enemies@[0].health == 100,
        r.enemies@[0].experience == 0,
        r.enemies@[0].position == (Position { x: 1, y: 1 }),
        r.policy == CollisionPolicy::Overlap(1),
{
    let player = PlayerBundle::new("player_name".to_owned(), vec![0u8, 0u8, 0u8], Position::new(5, 5));
    let enemies = vec![EnemyBundle::new("enemy_name".to_owned(), Position::new(1, 1))];
    World::new(player, enemies, CollisionPolicy::Overlap(1))
}

} // verus!
