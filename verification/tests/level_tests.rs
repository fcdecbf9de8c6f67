use platformer::actor::ActorState;
use platformer::backgrounds::{layer_positions, layers_can_scroll, tile_index};
use platformer::behaviors::Behavior;
use platformer::contact::any_enemy_touches;
use platformer::fixed::Fixed;
use platformer::geometry::{Rect, Vector2D};
use platformer::input::InputSnapshot;
use platformer::level::{CollisionRect, Entity, EntityType, Level, StateTags};
use platformer::registry::{ActorKey, ActorRegistry, BehaviorTable};
use platformer::resources::SpriteTag;
use platformer::sfx::{jump_sample, JumpSample, SoundEffect};

fn fx(raw: i32) -> Fixed {
    Fixed::from_raw(raw)
}

fn v(x: i32, y: i32) -> Vector2D<Fixed> {
    Vector2D { x: fx(x), y: fx(y) }
}

fn px(x: i32, y: i32, w: i32, h: i32) -> Rect<i32> {
    Rect { position: Vector2D { x, y }, size: Vector2D { x: w, y: h } }
}

fn mixed_level() -> Level {
    Level::new(
        30,
        20,
        vec![Entity(
            EntityType::Player,
            Vector2D { x: 1, y: 2 },
            None,
            vec![Behavior::Input, Behavior::Player],
            Vector2D { x: 0, y: 0 },
        )],
        String::from("first"),
        vec![
            CollisionRect::Solid(px(0, 16, 32, 8)),
            CollisionRect::Door(px(4, 4, 2, 4)),
            CollisionRect::Solid(px(40, 0, 8, 16)),
            CollisionRect::Door(px(9, 9, 1, 1)),
        ],
    )
}

fn boxed(x: i32, y: i32) -> platformer::actor::Actor {
    platformer::actor::Actor::new(EntityType::Bat.tags(), v(x, y), Some(v(2048, 2048)), v(0, 0), None, None)
}

#[test]
fn level_keeps_what_it_is_given() {
    let level = mixed_level();
    assert_eq!(level.width, 30);
    assert_eq!(level.height, 20);
    assert_eq!(level.name, "first");
    assert_eq!(level.starting_positions.len(), 1);
    assert_eq!(level.collision_rects.len(), 4);
}

#[test]
fn solid_rects_are_filtered_in_order() {
    let level = mixed_level();
    assert_eq!(level.get_solid_collision_rects(), vec![px(0, 16, 32, 8), px(40, 0, 8, 16)]);
}

#[test]
fn door_rects_are_filtered_in_order() {
    let level = mixed_level();
    assert_eq!(level.get_door_collision_rects(), vec![px(4, 4, 2, 4), px(9, 9, 1, 1)]);
}

#[test]
fn level_without_rects_has_neither() {
    let level = Level::new(1, 1, vec![], String::new(), vec![]);
    assert!(level.get_solid_collision_rects().is_empty());
    assert!(level.get_door_collision_rects().is_empty());
}

#[test]
fn get_level_picks_by_number() {
    let levels = [Level::new(1, 1, vec![], String::from("a"), vec![]), mixed_level()];
    assert_eq!(Level::get_level(&levels, 0).name, "a");
    assert_eq!(Level::get_level(&levels, 1).name, "first");
}

#[test]
fn tags_of_each_kind() {
    assert_eq!(
        EntityType::Player.tags(),
        StateTags {
            idle: Some(SpriteTag::WIdle),
            jumping: Some(SpriteTag::WJump),
            falling: None,
            running: Some(SpriteTag::WRun)
        }
    );
    assert_eq!(
        EntityType::Bat.tags(),
        StateTags { idle: Some(SpriteTag::Bat), jumping: None, falling: None, running: None }
    );
    assert_eq!(
        EntityType::Door.tags(),
        StateTags { idle: Some(SpriteTag::Door), jumping: None, falling: None, running: None }
    );
    assert_eq!(EntityType::Player.tags().get(ActorState::Falling), None);
}

#[test]
fn jump_sample_follows_the_remainder() {
    assert_eq!(jump_sample(0), JumpSample::First);
    assert_eq!(jump_sample(1), JumpSample::Second);
    assert_eq!(jump_sample(2), JumpSample::Third);
    assert_eq!(jump_sample(3), JumpSample::First);
    assert_eq!(jump_sample(4), JumpSample::Second);
    assert_eq!(jump_sample(i32::MAX), JumpSample::Second);
    // A negative number leaves a negative remainder, or none.
    assert_eq!(jump_sample(-1), JumpSample::Third);
    assert_eq!(jump_sample(-2), JumpSample::Third);
    assert_eq!(jump_sample(-3), JumpSample::First);
    assert_eq!(jump_sample(i32::MIN), JumpSample::Third);
}

#[test]
fn jump_sample_matches_the_remainder_of_the_machine() {
    for random in [-7, -6, -5, -4, -3, -2, -1, 0, 1, 2, 3, 4, 5, 6, 7, 1000, -1000, i32::MAX, i32::MIN] {
        let expected = match random % 3 {
            0 => JumpSample::First,
            1 => JumpSample::Second,
            _ => JumpSample::Third,
        };
        assert_eq!(jump_sample(random), expected, "{}", random);
    }
}

#[test]
fn sounds_are_distinct() {
    assert_ne!(SoundEffect::Jump, SoundEffect::BatFlap);
}

#[test]
fn tile_index_is_row_major() {
    assert_eq!(tile_index(30, 0, 0, 600), 0);
    assert_eq!(tile_index(30, 5, 0, 600), 5);
    assert_eq!(tile_index(30, 5, 2, 600), 65);
    assert_eq!(tile_index(30, 29, 19, 600), 599);
}

#[test]
fn tile_index_outside_the_layer_is_the_first_tile() {
    assert_eq!(tile_index(30, 0, 20, 600), 0);
    assert_eq!(tile_index(30, -1, 0, 600), 0);
    assert_eq!(tile_index(30, 0, -1, 600), 0);
    assert_eq!(tile_index(u32::MAX, i32::MAX, i32::MAX, 600), 0);
    assert_eq!(tile_index(u32::MAX, i32::MIN, i32::MIN, usize::MAX), 0);
    // A negative column can be made up for by the row.
    assert_eq!(tile_index(30, -1, 1, 600), 29);
}

#[test]
fn layers_scroll_against_the_camera() {
    let (near, far) = layer_positions(v(1000, -1000));
    assert_eq!(near, v(-1000, 1000));
    // 1000 * 6 / 10 and -1000 * 8 / 10
    assert_eq!(far, v(-600, 800));
    let (near, far) = layer_positions(v(0, 0));
    assert_eq!((near, far), (v(0, 0), v(0, 0)));
}

#[test]
fn far_layer_rounds_toward_zero() {
    // 7 * 6 / 10 = 4.2 and -7 * 8 / 10 = -5.6
    let (_, far) = layer_positions(v(7, -7));
    assert_eq!(far, v(-4, 5));
    let (_, far) = layer_positions(v(-7, 7));
    assert_eq!(far, v(4, -5));
}

#[test]
fn null_key_is_null() {
    let key = ActorKey::null();
    assert!(key.is_null());
    assert!(key.same(&ActorKey::null()));
    assert_eq!(key.id() & 0xffff_ffff, 0xffff_ffff);
}

#[test]
fn registry_gives_out_distinct_keys() {
    let mut registry = ActorRegistry::new();
    assert_eq!(registry.len(), 0);
    assert!(registry.keys().is_empty());
    let a = registry.insert(boxed(1, 1));
    let b = registry.insert(boxed(2, 2));
    let c = registry.insert(boxed(3, 3));
    assert_eq!(registry.len(), 3);
    assert!(!a.is_null() && !b.is_null() && !c.is_null());
    assert!(!a.same(&b) && !b.same(&c) && !a.same(&c));
    assert!(a.same(&a));
    assert_eq!(registry.get(a), Some(boxed(1, 1)));
    assert_eq!(registry.get(b), Some(boxed(2, 2)));
    assert_eq!(registry.get(c), Some(boxed(3, 3)));
    assert_eq!(registry.get(ActorKey::null()), None);
    let keys = registry.keys();
    assert_eq!(keys.len(), 3);
    assert!(keys[0].same(&a) && keys[1].same(&b) && keys[2].same(&c));
}

#[test]
fn registry_set_replaces_in_place() {
    let mut registry = ActorRegistry::new();
    let a = registry.insert(boxed(1, 1));
    let b = registry.insert(boxed(2, 2));
    registry.set(a, boxed(9, 9));
    assert_eq!(registry.get(a), Some(boxed(9, 9)));
    assert_eq!(registry.get(b), Some(boxed(2, 2)));
    let keys = registry.keys();
    assert!(keys[0].same(&a) && keys[1].same(&b));
    assert_eq!(registry.len(), 2);
}

#[test]
fn keys_of_one_registry_are_unknown_to_a_fresh_one() {
    let mut registry = ActorRegistry::new();
    let a = registry.insert(boxed(1, 1));
    let empty = ActorRegistry::new();
    assert_eq!(empty.get(a), None);
}

#[test]
fn behavior_table_holds_lists_by_key() {
    let mut registry = ActorRegistry::new();
    let a = registry.insert(boxed(1, 1));
    let b = registry.insert(boxed(2, 2));
    let mut table = BehaviorTable::new();
    assert!(table.get(a).is_none());
    table.insert(a, vec![Behavior::Input, Behavior::Player]);
    assert_eq!(table.get(a), Some(&vec![Behavior::Input, Behavior::Player]));
    assert!(table.get(b).is_none());
    table.insert(b, vec![]);
    assert_eq!(table.get(b), Some(&vec![]));
    table.insert(a, vec![Behavior::Flap]);
    assert_eq!(table.get(a), Some(&vec![Behavior::Flap]));
    assert!(table.get(ActorKey::null()).is_none());
}

#[test]
fn any_enemy_touches_looks_at_every_enemy() {
    let mut registry = ActorRegistry::new();
    let me = boxed(2560, 2048);
    let far = registry.insert(boxed(25600, 25600));
    let near = registry.insert(boxed(3000, 3000));
    assert_eq!(any_enemy_touches(&registry, &[], &me), Some(false));
    assert_eq!(any_enemy_touches(&registry, &[far], &me), Some(false));
    assert_eq!(any_enemy_touches(&registry, &[far, near], &me), Some(true));
    assert_eq!(any_enemy_touches(&registry, &[near, far, near], &me), Some(true));
    assert_eq!(any_enemy_touches(&registry, &[ActorKey::null()], &me), Some(false));
    // An enemy whose far corner leaves the machine word cannot be compared.
    let lost = registry.insert(boxed(i32::MAX, 0));
    assert_eq!(any_enemy_touches(&registry, &[far, lost], &me), None);
    assert_eq!(any_enemy_touches(&registry, &[far], &boxed(i32::MAX, 0)), None);
}

#[test]
fn behavior_update_steps_one_actor_of_the_registry() {
    let level = Level::new(
        4,
        3,
        vec![],
        String::from("ground"),
        vec![CollisionRect::Solid(px(0, 16, 32, 8))],
    );
    let mut registry = ActorRegistry::new();
    let mut hero = platformer::actor::Actor::new(
        EntityType::Player.tags(),
        v(2560, 2048),
        Some(v(2048, 2048)),
        v(0, 0),
        Some(v(358, 1792)),
        Some(v(153, 153)),
    );
    hero.current_action = platformer::actor::Action::Jump;
    let hero_key = registry.insert(hero);
    let bat_key = registry.insert(boxed(3000, 3000));
    let press = InputSnapshot::idle();
    let sound = Behavior::Player.update(hero_key, hero_key, &[bat_key], &mut registry, &press, &level);
    assert_eq!(sound, Some(SoundEffect::Jump));
    let after = registry.get(hero_key).unwrap();
    assert_eq!(after.velocity, v(0, -1792));
    assert_eq!(after.state, ActorState::Jumping);
    // The bat overlaps the player: one unit of health is gone.
    assert_eq!(after.health, fx(25600 - 256));
    // The step does not move the actor.
    assert_eq!(after.collision_mask, hero.collision_mask);
    assert_eq!(registry.get(bat_key), Some(boxed(3000, 3000)));
    // For an actor that is not the player the enemies do not matter.
    let sound = Behavior::Player.update(bat_key, hero_key, &[bat_key], &mut registry, &press, &level);
    assert_eq!(sound, None);
    assert_eq!(registry.get(bat_key).unwrap().health, fx(25600));
    // A key that the registry does not hold: nothing happens.
    let sound = Behavior::Flap.update(ActorKey::null(), hero_key, &[], &mut registry, &press, &level);
    assert_eq!(sound, None);
    assert_eq!(registry.get(hero_key), Some(after));
}

#[test]
fn layers_cannot_scroll_past_the_machine_word() {
    assert!(layers_can_scroll(v(1000, -1000)));
    assert!(layers_can_scroll(v(357913941, 268435455)));
    assert!(!layers_can_scroll(v(357913942, 0)));
    assert!(!layers_can_scroll(v(0, 268435456)));
    assert!(!layers_can_scroll(v(i32::MIN, 0)));
    assert!(layers_can_scroll(v(-357913941, -268435456)));
}
