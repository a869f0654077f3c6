use overworld::{
    apply_enemy_moves, battle_check, draw_directions, move_enemy, move_player, setup_world, AppState,
    CollisionPolicy, Direction, Directions, EnemyBundle, GameTickEvent, KeyTracker, ModeStack,
    PlayerBundle, Position, World,
};

const ALL: [Direction; 4] = [Direction::Up, Direction::Down, Direction::Left, Direction::Right];

fn player_at(x: i64, y: i64) -> PlayerBundle {
    PlayerBundle::new("hero".to_string(), vec![0, 0, 0], Position::new(x, y))
}

fn enemy_at(name: &str, x: i64, y: i64) -> EnemyBundle {
    EnemyBundle::new(name.to_string(), Position::new(x, y))
}

fn manhattan(a: Position, b: Position) -> i64 {
    (a.x - b.x).abs() + (a.y - b.y).abs()
}

#[test]
fn step_moves_one_cell() {
    let p = Position::new(3, -2);
    assert_eq!(p.step(Direction::Up), Position::new(3, -1));
    assert_eq!(p.step(Direction::Down), Position::new(3, -3));
    assert_eq!(p.step(Direction::Left), Position::new(2, -2));
    assert_eq!(p.step(Direction::Right), Position::new(4, -2));
}

#[test]
fn step_has_no_map_edge() {
    let p = Position::new(0, 0);
    assert_eq!(p.step(Direction::Left).step(Direction::Down), Position::new(-1, -1));
}

#[test]
fn step_round_trip_every_direction() {
    for p in [Position::new(0, 0), Position::new(-7, 12), Position::new(100, -100)] {
        for d in ALL {
            assert_eq!(p.step(d).step(d.opposite()), p);
        }
    }
}

#[test]
fn opposite_pairs() {
    assert_eq!(Direction::Up.opposite(), Direction::Down);
    assert_eq!(Direction::Down.opposite(), Direction::Up);
    assert_eq!(Direction::Left.opposite(), Direction::Right);
    assert_eq!(Direction::Right.opposite(), Direction::Left);
}

#[test]
fn direction_numbering() {
    assert_eq!(Direction::from_index(0), Direction::Right);
    assert_eq!(Direction::from_index(1), Direction::Left);
    assert_eq!(Direction::from_index(2), Direction::Up);
    assert_eq!(Direction::from_index(3), Direction::Down);
}

#[test]
fn directions_count_and_contains() {
    assert_eq!(Directions::none().count(), 0);
    assert_eq!(Directions::all().count(), 4);
    let right = Directions::only(Direction::Right);
    assert_eq!(right.count(), 1);
    assert!(right.contains(Direction::Right));
    assert!(!right.contains(Direction::Up));
}

#[test]
fn held_key_presses_only_once() {
    let mut keys = KeyTracker::new();
    let held = Directions::only(Direction::Right);
    let mut presses = 0;
    for _ in 0..10 {
        if keys.just_pressed(held).contains(Direction::Right) {
            presses += 1;
        }
    }
    assert_eq!(presses, 1);
}

#[test]
fn release_then_press_fires_again() {
    let mut keys = KeyTracker::new();
    let held = Directions::only(Direction::Up);
    assert_eq!(keys.just_pressed(held), held);
    assert_eq!(keys.just_pressed(Directions::none()), Directions::none());
    assert_eq!(keys.just_pressed(held), held);
}

#[test]
fn holding_a_key_moves_the_player_once() {
    let mut world = World::new(player_at(0, 0), vec![], CollisionPolicy::Exact);
    for _ in 0..5 {
        world.step(Directions::only(Direction::Right));
    }
    assert_eq!(world.player.position, Position::new(1, 0));
}

#[test]
fn move_player_applies_each_press_and_ticks() {
    let mut player = player_at(0, 0);
    let mut ticks = Vec::new();
    let pressed = Directions { up: true, down: false, left: false, right: true };
    move_player(&mut player, pressed, &mut ticks);
    assert_eq!(player.position, Position::new(1, 1));
    assert_eq!(ticks.len(), 2);
}

#[test]
fn move_player_without_press_sends_nothing() {
    let mut player = player_at(4, 4);
    let mut ticks: Vec<GameTickEvent> = Vec::new();
    move_player(&mut player, Directions::none(), &mut ticks);
    assert_eq!(player.position, Position::new(4, 4));
    assert!(ticks.is_empty());
}

#[test]
fn move_player_all_keys_returns_home() {
    let mut player = player_at(2, 3);
    let mut ticks = Vec::new();
    move_player(&mut player, Directions::all(), &mut ticks);
    assert_eq!(player.position, Position::new(2, 3));
    assert_eq!(ticks.len(), 4);
    assert_eq!(player.name, "hero");
}

#[test]
fn apply_enemy_moves_takes_draws_tick_by_tick() {
    let mut enemies = vec![enemy_at("a", 0, 0), enemy_at("b", 10, 10)];
    let draws = vec![Direction::Right, Direction::Up, Direction::Right, Direction::Left];
    apply_enemy_moves(&mut enemies, 2, &draws);
    assert_eq!(enemies[0].position, Position::new(2, 0));
    assert_eq!(enemies[1].position, Position::new(9, 11));
    assert_eq!(enemies[0].name, "a");
    assert_eq!(enemies[1].health, 100);
    assert_eq!(enemies[1].experience, 0);
}

#[test]
fn enemy_moves_are_ticks_times_enemies() {
    let mut enemies = vec![enemy_at("a", 0, 0), enemy_at("b", 5, 5), enemy_at("c", -5, 5)];
    let mut ticks = vec![GameTickEvent, GameTickEvent];
    let moves = move_enemy(&mut enemies, &mut ticks);
    assert_eq!(moves, 6);
    assert!(ticks.is_empty());
    let starts = [Position::new(0, 0), Position::new(5, 5), Position::new(-5, 5)];
    for (e, s) in enemies.iter().zip(starts.iter()) {
        let d = manhattan(e.position, *s);
        assert!(d <= 2 && d % 2 == 0);
    }
}

#[test]
fn no_tick_no_enemy_move() {
    let mut enemies = vec![enemy_at("a", 3, 3)];
    let mut ticks = Vec::new();
    assert_eq!(move_enemy(&mut enemies, &mut ticks), 0);
    assert_eq!(enemies[0].position, Position::new(3, 3));
}

#[test]
fn one_tick_moves_each_enemy_one_cell() {
    let mut enemies = vec![enemy_at("a", 0, 0), enemy_at("b", 7, -7)];
    let mut ticks = vec![GameTickEvent];
    assert_eq!(move_enemy(&mut enemies, &mut ticks), 2);
    assert_eq!(manhattan(enemies[0].position, Position::new(0, 0)), 1);
    assert_eq!(manhattan(enemies[1].position, Position::new(7, -7)), 1);
}

#[test]
fn random_draws_cover_all_directions() {
    let draws = draw_directions(400);
    assert_eq!(draws.len(), 400);
    for d in ALL {
        assert!(draws.contains(&d));
    }
    assert!(draw_directions(0).is_empty());
}

#[test]
fn collision_exact_policy() {
    let p = Position::new(2, 2);
    assert!(CollisionPolicy::Exact.collides(p, Position::new(2, 2)));
    assert!(!CollisionPolicy::Exact.collides(p, Position::new(2, 3)));
}

#[test]
fn collision_overlap_policy() {
    let p = Position::new(0, 0);
    assert!(CollisionPolicy::Overlap(1).collides(p, Position::new(0, 0)));
    assert!(!CollisionPolicy::Overlap(1).collides(p, Position::new(1, 0)));
    assert!(CollisionPolicy::Overlap(2).collides(p, Position::new(1, -1)));
    assert!(!CollisionPolicy::Overlap(2).collides(p, Position::new(2, 0)));
    assert!(!CollisionPolicy::Overlap(0).collides(p, p));
}

#[test]
fn collision_far_apart_does_not_overflow() {
    let a = Position::new(i64::MIN, i64::MAX);
    let b = Position::new(i64::MAX, i64::MIN);
    assert!(!CollisionPolicy::Overlap(u32::MAX).collides(a, b));
}

#[test]
fn battle_check_finds_first_colliding_enemy() {
    let enemies = vec![enemy_at("a", 1, 0), enemy_at("b", 0, 0), enemy_at("c", 0, 0)];
    assert_eq!(battle_check(CollisionPolicy::Exact, Position::new(0, 0), &enemies), Some(1));
    assert_eq!(battle_check(CollisionPolicy::Exact, Position::new(5, 5), &enemies), None);
    assert_eq!(battle_check(CollisionPolicy::Exact, Position::new(0, 0), &vec![]), None);
}

#[test]
fn detection_ignores_enemy_order() {
    let p = Position::new(4, 4);
    let forward = vec![enemy_at("a", 0, 0), enemy_at("b", 4, 4), enemy_at("c", 9, 9)];
    let backward = vec![enemy_at("c", 9, 9), enemy_at("b", 4, 4), enemy_at("a", 0, 0)];
    let f = battle_check(CollisionPolicy::Exact, p, &forward);
    let b = battle_check(CollisionPolicy::Exact, p, &backward);
    assert_eq!(f.is_some(), b.is_some());
    assert_eq!(forward[f.unwrap()].name, backward[b.unwrap()].name);
}

#[test]
fn several_colliding_enemies_push_battle_once() {
    let enemies = vec![enemy_at("a", 1, -1), enemy_at("b", 1, 1)];
    let mut world = World::new(player_at(0, 0), enemies, CollisionPolicy::Exact);
    let hit = world.advance(Directions::only(Direction::Right), &vec![Direction::Up, Direction::Down]);
    assert_eq!(hit, Some(0));
    assert_eq!(world.enemies[0].position, Position::new(1, 0));
    assert_eq!(world.enemies[1].position, Position::new(1, 0));
    assert_eq!(world.current_state(), AppState::Battle);
    assert_eq!(world.modes.pop(), Some(AppState::Battle));
    assert_eq!(world.modes.current_state(), AppState::OverWorld);
    assert_eq!(world.modes.pop(), None);
}

#[test]
fn mode_stack_starts_in_overworld() {
    let modes = ModeStack::new();
    assert_eq!(modes.current_state(), AppState::OverWorld);
    assert_eq!(modes.pending_transition(), None);
}

#[test]
fn mode_transition_waits_for_apply() {
    let mut modes = ModeStack::new();
    modes.request_transition(AppState::Battle);
    assert_eq!(modes.current_state(), AppState::OverWorld);
    assert_eq!(modes.pending_transition(), Some(AppState::Battle));
    assert!(modes.apply_transition());
    assert_eq!(modes.current_state(), AppState::Battle);
    assert!(!modes.apply_transition());
    assert_eq!(modes.pop(), Some(AppState::Battle));
    assert_eq!(modes.current_state(), AppState::OverWorld);
}

#[test]
fn setup_world_initial_state() {
    let world = setup_world();
    assert_eq!(world.current_state(), AppState::OverWorld);
    assert_eq!(world.player.name, "player_name");
    assert_eq!(world.player.items, vec![0u8, 0, 0]);
    assert_eq!(world.player.position, Position::new(5, 5));
    assert_eq!(world.enemies.len(), 1);
    assert_eq!(world.enemies[0].name, "enemy_name");
    assert_eq!(world.enemies[0].health, 100);
    assert_eq!(world.enemies[0].experience, 0);
    assert_eq!(world.enemies[0].position, Position::new(1, 1));
}

#[test]
fn battle_participants_names() {
    let world = setup_world();
    let (p, e) = world.battle_participants(0);
    assert_eq!(p, "player_name");
    assert_eq!(e, "enemy_name");
}

#[test]
fn player_presses_right_four_times() {
    let mut world = World::new(player_at(5, 5), vec![enemy_at("enemy_name", 1, 1)], CollisionPolicy::Exact);
    let start = Position::new(1, 1);
    let mut steps = 0;
    for _ in 0..4 {
        if world.current_state() != AppState::OverWorld {
            break;
        }
        world.step(Directions::only(Direction::Right));
        world.step(Directions::none());
        steps += 1;
    }
    if world.current_state() == AppState::OverWorld {
        assert_eq!(world.player.position, Position::new(9, 5));
        let d = manhattan(world.enemies[0].position, start);
        assert!(d <= 4 && d % 2 == 0);
    } else {
        assert!(steps <= 4);
        assert_eq!(world.player.position, world.enemies[0].position);
    }
}

#[test]
fn player_presses_right_four_times_with_given_draws() {
    let mut world = World::new(player_at(5, 5), vec![enemy_at("enemy_name", 1, 1)], CollisionPolicy::Exact);
    let draws = [Direction::Left, Direction::Down, Direction::Up, Direction::Up];
    for d in draws {
        assert_eq!(world.advance(Directions::only(Direction::Right), &vec![d]), None);
    }
    assert_eq!(world.player.position, Position::new(9, 5));
    assert_eq!(world.enemies[0].position, Position::new(0, 2));
    assert_eq!(world.current_state(), AppState::OverWorld);
}

#[test]
fn arrival_on_enemy_cell_enters_battle() {
    let mut world = World::new(player_at(0, 0), vec![enemy_at("enemy_name", 2, 0)], CollisionPolicy::Exact);
    let hit = world.advance(Directions::only(Direction::Right), &vec![Direction::Left]);
    assert_eq!(hit, Some(0));
    assert_eq!(world.player.position, Position::new(1, 0));
    assert_eq!(world.enemies[0].position, Position::new(1, 0));
    assert_eq!(world.current_state(), AppState::Battle);
}

#[test]
fn enemy_stepping_away_avoids_battle() {
    let mut world = World::new(player_at(0, 0), vec![enemy_at("enemy_name", 1, 0)], CollisionPolicy::Exact);
    let hit = world.advance(Directions::only(Direction::Right), &vec![Direction::Right]);
    assert_eq!(hit, None);
    assert_eq!(world.player.position, Position::new(1, 0));
    assert_eq!(world.enemies[0].position, Position::new(2, 0));
    assert_eq!(world.current_state(), AppState::OverWorld);
}

#[test]
fn press_right_once_next_to_enemy() {
    let mut world = World::new(player_at(0, 0), vec![enemy_at("enemy_name", 1, 0)], CollisionPolicy::Exact);
    let hit = world.step(Directions::only(Direction::Right));
    assert_eq!(world.player.position, Position::new(1, 0));
    let met = world.enemies[0].position == world.player.position;
    assert_eq!(hit.is_some(), met);
    let expected = if met { AppState::Battle } else { AppState::OverWorld };
    assert_eq!(world.current_state(), expected);
}

#[test]
fn nothing_moves_in_battle() {
    let mut world = World::new(player_at(0, 0), vec![enemy_at("enemy_name", 2, 0)], CollisionPolicy::Exact);
    world.advance(Directions::only(Direction::Right), &vec![Direction::Left]);
    assert_eq!(world.current_state(), AppState::Battle);
    assert_eq!(world.step(Directions::only(Direction::Up)), None);
    assert_eq!(world.player.position, Position::new(1, 0));
    assert_eq!(world.enemies[0].position, Position::new(1, 0));
    assert_eq!(world.current_state(), AppState::Battle);
}

#[test]
fn no_enemies_never_battle() {
    let mut world = World::new(player_at(0, 0), vec![], CollisionPolicy::Overlap(1));
    for i in 0..10 {
        let held = if i % 2 == 0 { Directions::all() } else { Directions::none() };
        assert_eq!(world.step(held), None);
        assert_eq!(world.current_state(), AppState::OverWorld);
    }
    assert_eq!(world.player.position, Position::new(0, 0));
}
