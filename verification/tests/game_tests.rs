use platformer::actor::{Action, Actor, ActorState, DrawCommand};
use platformer::behaviors::Behavior;
use platformer::fixed::Fixed;
use platformer::game::Game;
use platformer::geometry::{Rect, Vector2D};
use platformer::input::{InputSnapshot, Tri};
use platformer::level::{CollisionRect, Entity, EntityType, Level};
use platformer::registry::ActorKey;
use platformer::resources::SpriteTag;
use platformer::sfx::SoundEffect;

fn fx(raw: i32) -> Fixed {
    Fixed::from_raw(raw)
}

fn v(x: i32, y: i32) -> Vector2D<Fixed> {
    Vector2D { x: fx(x), y: fx(y) }
}

fn p(x: i32, y: i32) -> Vector2D<i32> {
    Vector2D { x, y }
}

fn solid(x: i32, y: i32, w: i32, h: i32) -> CollisionRect {
    CollisionRect::Solid(Rect { position: p(x, y), size: p(w, h) })
}

fn player_entity(x: i32, y: i32) -> Entity {
    Entity(EntityType::Player, p(x, y), Some(p(8, 8)), vec![Behavior::Input, Behavior::Player], p(0, 0))
}

fn bat_entity(x: i32, y: i32) -> Entity {
    Entity(EntityType::Bat, p(x, y), Some(p(8, 8)), vec![Behavior::Flap], p(0, 0))
}

fn level(entities: Vec<Entity>, rects: Vec<CollisionRect>) -> Level {
    Level::new(4, 3, entities, String::from("test"), rects)
}

/// One solid rectangle from (0,16) to (32,24), and the player at (10,0).
fn drop_level() -> Level {
    level(vec![player_entity(10, 0)], vec![solid(0, 16, 32, 8)])
}

fn press() -> InputSnapshot {
    InputSnapshot { x_tri: Tri::Zero, y_tri: Tri::Zero, jump_just_pressed: true, jump_just_released: false }
}

fn release() -> InputSnapshot {
    InputSnapshot { x_tri: Tri::Zero, y_tri: Tri::Zero, jump_just_pressed: false, jump_just_released: true }
}

fn hold(x_tri: Tri) -> InputSnapshot {
    InputSnapshot { x_tri, y_tri: Tri::Zero, jump_just_pressed: false, jump_just_released: false }
}

fn step(game: &mut Game, input: &InputSnapshot) -> Vec<SoundEffect> {
    assert!(game.can_update(input));
    game.update(input)
}

fn the_player(game: &Game) -> Actor {
    game.actor(game.player()).unwrap()
}

#[test]
fn new_game_is_empty() {
    let level = drop_level();
    let game = Game::new(&level);
    assert!(game.actor_keys().is_empty());
    assert!(game.player().is_null());
    assert_eq!(game.enemies().len(), 100);
    assert!(game.enemies().iter().all(|key| key.is_null()));
    assert_eq!(game.frame(), 0);
    assert_eq!(game.scroll_pos, v(0, 0));
    assert_eq!(game.actor(game.player()), None);
    assert!(game.render(10).is_empty());
}

#[test]
fn load_level_spawns_every_entity() {
    let level = level(
        vec![
            bat_entity(20, 4),
            player_entity(10, 0),
            Entity(EntityType::Door, p(30, 8), None, vec![], p(-4, -8)),
            bat_entity(24, 6),
        ],
        vec![solid(0, 16, 32, 8)],
    );
    let mut game = Game::new(&level);
    game.load_level();
    let keys = game.actor_keys();
    assert_eq!(keys.len(), 4);
    for (i, a) in keys.iter().enumerate() {
        assert!(!a.is_null());
        for b in keys.iter().skip(i + 1) {
            assert!(!a.same(b));
            assert_ne!(a.id(), b.id());
        }
    }
    // The player.
    let player = the_player(&game);
    assert_eq!(player.collision_mask, Rect { position: v(2560, 0), size: v(2048, 2048) });
    assert_eq!(player.max_velocity, v(358, 1792));
    assert_eq!(player.acceleration, v(153, 153));
    assert_eq!(player.tags, EntityType::Player.tags());
    assert_eq!(player.health, fx(25600));
    assert_eq!(player.state, ActorState::Idle);
    assert_eq!(game.behaviors(game.player()), vec![Behavior::Input, Behavior::Player]);
    // The bats follow the hundred null keys, in the order of the level.
    let enemies = game.enemies().clone();
    assert_eq!(enemies.len(), 102);
    assert!(enemies[..100].iter().all(|key| key.is_null()));
    let first = game.actor(enemies[100]).unwrap();
    let second = game.actor(enemies[101]).unwrap();
    assert_eq!(first.collision_mask.position, v(5120, 1024));
    assert_eq!(second.collision_mask.position, v(6144, 1536));
    assert_eq!(first.max_velocity, v(358, 15));
    assert_eq!(first.acceleration, v(153, 2));
    assert_eq!(first.tags, EntityType::Bat.tags());
    assert_eq!(game.behaviors(enemies[100]), vec![Behavior::Flap]);
    // The door: default size and tuning, its own sprite offset, no behavior.
    let door_key = keys
        .iter()
        .find(|key| !key.same(&game.player()) && !key.same(&enemies[100]) && !key.same(&enemies[101]))
        .unwrap();
    let door = game.actor(*door_key).unwrap();
    assert_eq!(door.collision_mask, Rect { position: v(7680, 2048), size: v(256, 256) });
    assert_eq!(door.sprite_offset, v(-1024, -2048));
    assert_eq!(door.max_velocity, v(256, 256));
    assert_eq!(door.acceleration, v(51, 51));
    assert_eq!(door.tags, EntityType::Door.tags());
    assert!(game.behaviors(*door_key).is_empty());
}

#[test]
fn the_last_player_of_a_level_is_the_player() {
    let level = level(vec![player_entity(1, 1), player_entity(2, 2)], vec![]);
    let mut game = Game::new(&level);
    game.load_level();
    assert_eq!(the_player(&game).collision_mask.position, v(512, 512));
    assert_eq!(game.actor_keys().len(), 2);
}

#[test]
fn unknown_key_finds_nothing() {
    let level = drop_level();
    let mut game = Game::new(&level);
    game.load_level();
    assert_eq!(game.actor(ActorKey::null()), None);
    assert!(game.behaviors(ActorKey::null()).is_empty());
}

#[test]
fn free_fall_lands_on_the_ground() {
    let level = drop_level();
    let mut game = Game::new(&level);
    game.load_level();
    let idle = InputSnapshot::idle();
    // (position.y, velocity.y) after each tick, in raw units.
    let expected = [
        (153, 153),
        (459, 306),
        (918, 459),
        (1530, 612),
        (1530, 0),
        (1683, 153),
        (1989, 306),
        (1989, 0),
        (2142, 153),
        (2142, 0),
        (2142, 0),
        (2142, 0),
    ];
    let ground_top = 16 * 256;
    for (y, vy) in expected {
        let before = the_player(&game);
        let sounds = step(&mut game, &idle);
        assert!(sounds.is_empty());
        let player = the_player(&game);
        assert_eq!(player.collision_mask.position, v(2560, y));
        assert_eq!(player.velocity, v(0, vy));
        assert_eq!(player.state, ActorState::Idle);
        // The bottom never passes the top of the ground by more than the
        // velocity of one tick.
        let bottom = y + 2048;
        assert!(bottom - ground_top <= before.velocity.y.to_raw().max(153));
    }
    // At rest, with the bottom of the mask in the ground by less than a pixel.
    let player = the_player(&game);
    assert_eq!(player.collision_mask.position.y.to_raw() + 2048 - ground_top, 94);
    assert_eq!(game.frame(), 12);
}

#[test]
fn rest_is_stable_over_many_ticks() {
    let level = level(vec![player_entity(10, 8)], vec![solid(0, 16, 32, 8)]);
    let mut game = Game::new(&level);
    game.load_level();
    let start = the_player(&game);
    for _ in 0..200 {
        let sounds = step(&mut game, &InputSnapshot::idle());
        assert!(sounds.is_empty());
        assert_eq!(the_player(&game), start);
    }
    assert_eq!(start.velocity, v(0, 0));
    assert_eq!(start.state, ActorState::Idle);
}

#[test]
fn running_into_a_wall_stops_before_it() {
    let level = level(vec![player_entity(10, 8)], vec![solid(0, 16, 64, 8), solid(40, 0, 8, 16)]);
    let mut game = Game::new(&level);
    game.load_level();
    let wall_edge = 40 * 256;
    let mut stopped_at = None;
    for tick in 1..=40 {
        step(&mut game, &hold(Tri::Positive));
        let player = the_player(&game);
        let right = player.collision_mask.position.x.to_raw() + 2048;
        assert!(right <= wall_edge, "tick {}", tick);
        if stopped_at.is_none() && player.velocity.x.to_raw() == 0 {
            stopped_at = Some(tick);
        }
    }
    assert_eq!(stopped_at, Some(17));
    let player = the_player(&game);
    assert_eq!(player.collision_mask.position, v(8186, 2048));
    assert_eq!(player.velocity, v(0, 0));
    assert_eq!(player.facing, Tri::Positive);
}

#[test]
fn jump_starts_in_the_tick_of_the_press() {
    let level = level(vec![player_entity(10, 8)], vec![solid(0, 16, 32, 8)]);
    let mut game = Game::new(&level);
    game.load_level();
    let sounds = step(&mut game, &press());
    assert_eq!(sounds, vec![SoundEffect::Jump]);
    let player = the_player(&game);
    assert_eq!(player.state, ActorState::Jumping);
    assert_eq!(player.velocity, v(0, -1792));
    assert_eq!(player.collision_mask.position, v(2560, 2048 - 1792));
    assert_eq!(player.current_action, Action::NoAction);
}

/// The smallest ordinate that the player reaches in a jump from the ground,
/// with the button released in the second tick or not at all.
fn peak_of_jump(cut: bool) -> i32 {
    let level = level(vec![player_entity(10, 8)], vec![solid(0, 16, 32, 8)]);
    let mut game = Game::new(&level);
    game.load_level();
    let mut peak = the_player(&game).collision_mask.position.y.to_raw();
    step(&mut game, &press());
    peak = peak.min(the_player(&game).collision_mask.position.y.to_raw());
    step(&mut game, &if cut { release() } else { InputSnapshot::idle() });
    peak = peak.min(the_player(&game).collision_mask.position.y.to_raw());
    for _ in 0..60 {
        step(&mut game, &InputSnapshot::idle());
        peak = peak.min(the_player(&game).collision_mask.position.y.to_raw());
    }
    assert_eq!(the_player(&game).velocity, v(0, 0));
    peak
}

#[test]
fn cut_jump_peaks_lower() {
    let free = peak_of_jump(false);
    let cut = peak_of_jump(true);
    assert_eq!(cut, 2048 - 1792);
    assert_eq!(free, 2048 - 1792 - 9614);
    assert!(cut > free);
}

#[test]
fn contact_takes_health_once_per_tick() {
    // Two bats on the player, a third one away from it.
    let level = level(
        vec![player_entity(10, 8), bat_entity(12, 10), bat_entity(8, 6), bat_entity(100, 100)],
        vec![solid(0, 16, 32, 8)],
    );
    let mut game = Game::new(&level);
    game.load_level();
    let enemies = game.enemies().clone();
    let bats: Vec<ActorKey> = enemies[100..].to_vec();
    assert_eq!(bats.len(), 3);
    let mut health = 25600;
    for _ in 0..5 {
        step(&mut game, &InputSnapshot::idle());
        health -= 256;
        assert_eq!(the_player(&game).health, fx(health));
        for bat in bats.iter() {
            assert_eq!(game.actor(*bat).unwrap().health, fx(25600));
        }
    }
    // Take the bats away: the health stays.
    for bat in bats.iter() {
        let mut actor = game.actor(*bat).unwrap();
        actor.collision_mask.position = v(100 * 256, 100 * 256);
        actor.velocity = v(0, 0);
        game.set_actor(*bat, actor);
    }
    step(&mut game, &InputSnapshot::idle());
    assert_eq!(the_player(&game).health, fx(health));
}

#[test]
fn touching_edges_is_no_contact() {
    // The bat begins exactly where the player ends.
    let level = level(vec![player_entity(10, 8), bat_entity(18, 8)], vec![solid(0, 16, 32, 8)]);
    let mut game = Game::new(&level);
    game.load_level();
    let bat_key = game.enemies()[100];
    // Keep the bat in place: no gravity for it.
    let mut bat = game.actor(bat_key).unwrap();
    bat.acceleration = v(0, 0);
    game.set_actor(bat_key, bat);
    step(&mut game, &InputSnapshot::idle());
    assert_eq!(the_player(&game).health, fx(25600));
    bat.collision_mask.position = v(18 * 256 - 1, 2048);
    game.set_actor(bat_key, bat);
    step(&mut game, &InputSnapshot::idle());
    assert_eq!(the_player(&game).health, fx(25600 - 256));
}

#[test]
fn contact_is_decided_before_anything_moves() {
    // The bat comes before the player in the registry and moves away from it
    // in this tick; at the start of the tick they overlap.
    let level = level(vec![bat_entity(12, 8), player_entity(10, 8)], vec![solid(0, 16, 32, 8)]);
    let mut game = Game::new(&level);
    game.load_level();
    let keys = game.actor_keys();
    let bat_key = game.enemies()[100];
    assert!(keys[0].same(&bat_key));
    let mut bat = game.actor(bat_key).unwrap();
    bat.velocity = v(0x10_0000, 0);
    game.set_actor(bat_key, bat);
    step(&mut game, &InputSnapshot::idle());
    assert_eq!(game.actor(bat_key).unwrap().collision_mask.position.x, fx(12 * 256 + 0x10_0000));
    assert_eq!(the_player(&game).health, fx(25600 - 256));
    step(&mut game, &InputSnapshot::idle());
    assert_eq!(the_player(&game).health, fx(25600 - 256));
}

#[test]
fn only_the_player_is_hurt() {
    // Two actors with the ground physics overlap an enemy; one is the player.
    let level = level(
        vec![player_entity(10, 8), player_entity(10, 8), bat_entity(10, 8)],
        vec![solid(0, 16, 32, 8)],
    );
    let mut game = Game::new(&level);
    game.load_level();
    let keys = game.actor_keys();
    step(&mut game, &InputSnapshot::idle());
    let mut hurt = 0;
    for key in keys.iter() {
        let actor = game.actor(*key).unwrap();
        if actor.health != fx(25600) {
            assert!(key.same(&game.player()));
            assert_eq!(actor.health, fx(25600 - 256));
            hurt += 1;
        }
    }
    assert_eq!(hurt, 1);
}

#[test]
fn bat_flaps_on_its_jump_intent() {
    let level = level(vec![bat_entity(10, 8)], vec![]);
    let mut game = Game::new(&level);
    game.load_level();
    let bat_key = game.enemies()[100];
    let mut bat = game.actor(bat_key).unwrap();
    bat.current_action = Action::Jump;
    game.set_actor(bat_key, bat);
    let sounds = step(&mut game, &InputSnapshot::idle());
    assert_eq!(sounds, vec![SoundEffect::BatFlap]);
    let bat = game.actor(bat_key).unwrap();
    assert_eq!(bat.state, ActorState::Jumping);
    assert_eq!(bat.velocity, v(0, -15));
    assert_eq!(bat.collision_mask.position, v(2560, 2048 - 15));
    assert_eq!(bat.current_action, Action::NoAction);
    assert!(step(&mut game, &InputSnapshot::idle()).is_empty());
}

#[test]
fn camera_follows_the_player() {
    let level = drop_level();
    let mut game = Game::new(&level);
    game.load_level();
    let expected = [(1320, 952), (2578, 1845), (3777, 2674), (4919, 3436), (6008, 4162)];
    for (x, y) in expected {
        step(&mut game, &InputSnapshot::idle());
        assert_eq!(game.scroll_pos, v(x, y));
    }
}

#[test]
fn camera_is_clamped_at_half_the_screen() {
    // A player far to the left and far up: the camera wants to go beyond
    // half the screen, and is held there.
    let level = level(vec![player_entity(-2000, -3000)], vec![]);
    let mut game = Game::new(&level);
    game.load_level();
    let key = game.player();
    let mut player = game.actor(key).unwrap();
    player.acceleration = v(0, 0);
    game.set_actor(key, player);
    let mut last = (0, 0);
    for _ in 0..200 {
        step(&mut game, &InputSnapshot::idle());
        let scroll = (game.scroll_pos.x.to_raw(), game.scroll_pos.y.to_raw());
        assert!(scroll.0 <= 30720 && scroll.1 <= 20480);
        assert!(scroll.0 >= last.0 && scroll.1 >= last.1);
        last = scroll;
    }
    assert_eq!(game.scroll_pos, v(30720, 20480));
}

#[test]
fn camera_within_the_screen_stays_within_half_of_it() {
    // The player at the far corner of the screen.
    let level = level(vec![player_entity(240, 160)], vec![]);
    let mut game = Game::new(&level);
    game.load_level();
    let key = game.player();
    let mut player = game.actor(key).unwrap();
    player.acceleration = v(0, 0);
    game.set_actor(key, player);
    for _ in 0..300 {
        step(&mut game, &InputSnapshot::idle());
        assert!(game.scroll_pos.x.to_raw().abs() <= 30720);
        assert!(game.scroll_pos.y.to_raw().abs() <= 20480);
    }
    assert!(game.scroll_pos.x.to_raw() < -30000);
    assert!(game.scroll_pos.y.to_raw() < -20000);
}

#[test]
fn camera_stays_without_a_player() {
    let level = level(vec![bat_entity(10, 8)], vec![]);
    let mut game = Game::new(&level);
    game.load_level();
    game.scroll_pos = v(77, -99);
    step(&mut game, &InputSnapshot::idle());
    assert_eq!(game.scroll_pos, v(77, -99));
    assert_eq!(game.frame(), 1);
}

#[test]
fn update_refuses_what_leaves_the_range() {
    let level = drop_level();
    let mut game = Game::new(&level);
    game.load_level();
    let key = game.player();
    let mut player = game.actor(key).unwrap();
    player.collision_mask.position = v(0, 0x100_0001);
    game.set_actor(key, player);
    assert!(!game.can_update(&InputSnapshot::idle()));
    assert_eq!(game.try_update(&InputSnapshot::idle()), None);
    assert_eq!(game.actor(key), Some(player));
    assert_eq!(game.frame(), 0);
    player.collision_mask.position = v(0, 0x100_0000);
    game.set_actor(key, player);
    assert!(game.can_update(&InputSnapshot::idle()));
    assert_eq!(game.try_update(&InputSnapshot::idle()), Some(vec![]));
    assert_eq!(game.frame(), 1);
    assert_eq!(the_player(&game).collision_mask.position, v(0, 0x100_0000 + 153));
}

#[test]
fn update_refuses_a_level_out_of_reach() {
    let level = level(vec![player_entity(10, 0)], vec![solid(0, 8388608, 32, 8)]);
    let mut game = Game::new(&level);
    game.load_level();
    assert!(!game.can_update(&InputSnapshot::idle()));
    assert_eq!(game.try_update(&InputSnapshot::idle()), None);
}

#[test]
fn doors_of_the_level_block_nothing() {
    let level = level(
        vec![player_entity(10, 8)],
        vec![CollisionRect::Door(Rect { position: p(0, 16), size: p(32, 8) })],
    );
    let mut game = Game::new(&level);
    game.load_level();
    step(&mut game, &InputSnapshot::idle());
    assert_eq!(the_player(&game).velocity, v(0, 153));
}

#[test]
fn render_draws_the_actors_in_order() {
    let level = level(
        vec![player_entity(10, 8), bat_entity(20, 4), Entity(EntityType::Door, p(30, 8), None, vec![], p(-4, -8))],
        vec![solid(0, 16, 32, 8)],
    );
    let mut game = Game::new(&level);
    game.load_level();
    game.scroll_pos = v(256, -256);
    assert!(game.can_render());
    let commands = game.render(128);
    assert_eq!(
        commands,
        vec![
            DrawCommand { tag: SpriteTag::WIdle, animation_frame: 0, position: p(11, 7), hflip: false },
            DrawCommand { tag: SpriteTag::Bat, animation_frame: 0, position: p(21, 3), hflip: false },
            DrawCommand { tag: SpriteTag::Door, animation_frame: 0, position: p(27, -1), hflip: false },
        ]
    );
}

#[test]
fn render_drops_what_has_no_slot() {
    let level = level(vec![player_entity(10, 8), bat_entity(20, 4), bat_entity(30, 4)], vec![]);
    let mut game = Game::new(&level);
    game.load_level();
    assert_eq!(game.render(3).len(), 3);
    let two = game.render(2);
    assert_eq!(two.len(), 2);
    assert_eq!(two, game.render(3)[..2].to_vec());
    assert!(game.render(0).is_empty());
}

#[test]
fn render_skips_actors_without_animation() {
    let level = level(vec![bat_entity(20, 4), player_entity(10, 8), bat_entity(30, 4)], vec![]);
    let mut game = Game::new(&level);
    game.load_level();
    let first_bat = game.enemies()[100];
    let mut bat = game.actor(first_bat).unwrap();
    bat.state = ActorState::Running;
    game.set_actor(first_bat, bat);
    let key = game.player();
    let mut player = game.actor(key).unwrap();
    player.facing = Tri::Negative;
    player.state = ActorState::Running;
    game.set_actor(key, player);
    // With room for one sprite, the player takes it: the first bat has no
    // animation for running and takes no slot.
    let commands = game.render(1);
    assert_eq!(
        commands,
        vec![DrawCommand { tag: SpriteTag::WRun, animation_frame: 0, position: p(10, 8), hflip: true }]
    );
    assert_eq!(game.render(5).len(), 2);
}

#[test]
fn animation_frame_advances_every_ten_ticks() {
    let level = level(vec![player_entity(10, 8)], vec![solid(0, 16, 32, 8)]);
    let mut game = Game::new(&level);
    game.load_level();
    for tick in 1..=25usize {
        step(&mut game, &InputSnapshot::idle());
        assert_eq!(game.frame(), tick);
        game.scroll_pos = v(0, 0);
        assert_eq!(game.render(1)[0].animation_frame, tick / 10);
    }
}

#[test]
fn render_cannot_place_what_does_not_fit() {
    let level = level(vec![player_entity(10, 8)], vec![]);
    let mut game = Game::new(&level);
    game.load_level();
    game.scroll_pos = v(i32::MAX, 0);
    assert!(!game.can_render());
    let key = game.player();
    let mut player = game.actor(key).unwrap();
    player.visible = false;
    game.set_actor(key, player);
    assert!(game.can_render());
    assert!(game.render(4).is_empty());
}

#[test]
fn set_actor_replaces_one_actor() {
    let level = level(vec![player_entity(10, 8), bat_entity(20, 4)], vec![]);
    let mut game = Game::new(&level);
    game.load_level();
    let keys = game.actor_keys();
    let bat_key = game.enemies()[100];
    let player_before = the_player(&game);
    let mut bat = game.actor(bat_key).unwrap();
    bat.health = fx(1);
    bat.visible = false;
    game.set_actor(bat_key, bat);
    assert_eq!(game.actor(bat_key), Some(bat));
    assert_eq!(the_player(&game), player_before);
    let after = game.actor_keys();
    assert_eq!(after.len(), keys.len());
    for (a, b) in keys.iter().zip(after.iter()) {
        assert!(a.same(b));
    }
}

#[test]
fn level_that_does_not_fit_cannot_be_loaded() {
    let fine = level(vec![player_entity(8388607, -8388608)], vec![]);
    assert!(fine.can_spawn());
    assert!(Game::new(&fine).can_load_level());
    let far = level(vec![player_entity(10, 0), player_entity(8388608, 0)], vec![]);
    assert!(!far.can_spawn());
    assert!(!Game::new(&far).can_load_level());
    let wide = level(
        vec![Entity(EntityType::Door, p(0, 0), Some(p(0, 8388608)), vec![], p(0, 0))],
        vec![],
    );
    assert!(!Game::new(&wide).can_load_level());
    let offset = level(
        vec![Entity(EntityType::Door, p(0, 0), None, vec![], p(-8388609, 0))],
        vec![],
    );
    assert!(!Game::new(&offset).can_load_level());
    let empty = level(vec![], vec![]);
    let mut game = Game::new(&empty);
    assert!(game.can_load_level());
    game.load_level();
    assert!(game.actor_keys().is_empty());
    assert_eq!(game.enemies().len(), 100);
}

#[test]
fn loading_twice_spawns_twice() {
    let level = level(vec![player_entity(10, 8), bat_entity(20, 4)], vec![]);
    let mut game = Game::new(&level);
    game.load_level();
    let first_player = game.player();
    let first = game.actor_keys();
    assert!(game.can_load_level());
    game.load_level();
    let second = game.actor_keys();
    assert_eq!(second.len(), 4);
    assert!(!game.player().same(&first_player));
    assert_eq!(game.enemies().len(), 102);
    // The actors of the first load keep their keys and their values.
    for key in first.iter() {
        assert!(second.iter().any(|k| k.same(key)));
    }
    assert_eq!(game.actor(first_player).unwrap().collision_mask.position, v(2560, 2048));
}

#[test]
fn camera_follows_a_far_player_past_half_the_screen() {
    // Nothing holds the camera on the negative side: a player far to the
    // right pulls it beyond half the screen.
    let level = level(vec![player_entity(1000, 0)], vec![]);
    let mut game = Game::new(&level);
    game.load_level();
    let key = game.player();
    let mut player = game.actor(key).unwrap();
    player.acceleration = v(0, 0);
    game.set_actor(key, player);
    game.scroll_pos = v(-30720, 0);
    step(&mut game, &InputSnapshot::idle());
    // -30720 * 244 / 256 + (30720 - 256000) * 12 / 256
    assert_eq!(game.scroll_pos.x, fx(-39840));
}
