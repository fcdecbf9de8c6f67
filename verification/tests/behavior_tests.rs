use platformer::actor::{Action, Actor, ActorState};
use platformer::behaviors::{tick_actor, Behavior};
use platformer::fixed::Fixed;
use platformer::geometry::{Rect, Vector2D};
use platformer::input::{InputSnapshot, Tri};
use platformer::level::EntityType;
use platformer::sfx::SoundEffect;

fn fx(raw: i32) -> Fixed {
    Fixed::from_raw(raw)
}

fn v(x: i32, y: i32) -> Vector2D<Fixed> {
    Vector2D { x: fx(x), y: fx(y) }
}

fn px(x: i32, y: i32, w: i32, h: i32) -> Rect<i32> {
    Rect { position: Vector2D { x, y }, size: Vector2D { x: w, y: h } }
}

fn ground() -> Vec<Rect<i32>> {
    vec![px(0, 16, 32, 8)]
}

/// The player as a level spawns it, 8 by 8, with its corner at the raw
/// position.
fn player_at(x: i32, y: i32) -> Actor {
    Actor::new(
        EntityType::Player.tags(),
        v(x, y),
        Some(v(2048, 2048)),
        v(0, 0),
        Some(v(358, 1792)),
        Some(v(153, 153)),
    )
}

/// The player standing on the ground of `ground()`.
fn standing() -> Actor {
    player_at(2560, 2048)
}

fn input(x_tri: Tri, pressed: bool, released: bool) -> InputSnapshot {
    InputSnapshot { x_tri, y_tri: Tri::Zero, jump_just_pressed: pressed, jump_just_released: released }
}

#[test]
fn idle_input_is_untouched() {
    assert_eq!(InputSnapshot::idle(), input(Tri::Zero, false, false));
}

#[test]
fn input_copies_the_direction() {
    let mut actor = standing();
    let sound = Behavior::Input.apply(&mut actor, &input(Tri::Negative, false, false), &ground(), false);
    assert_eq!(sound, None);
    assert_eq!(actor.direction_x, Tri::Negative);
    assert_eq!(actor.current_action, Action::NoAction);
    let mut expected = standing();
    expected.direction_x = Tri::Negative;
    assert_eq!(actor, expected);
}

#[test]
fn input_press_sets_the_jump_intent_unless_jumping() {
    let mut actor = standing();
    Behavior::Input.apply(&mut actor, &input(Tri::Zero, true, false), &ground(), false);
    assert_eq!(actor.current_action, Action::Jump);
    let mut jumping = standing();
    jumping.state = ActorState::Jumping;
    Behavior::Input.apply(&mut jumping, &input(Tri::Zero, true, false), &ground(), false);
    assert_eq!(jumping.current_action, Action::NoAction);
}

#[test]
fn input_release_cuts_only_a_jump() {
    let mut jumping = standing();
    jumping.state = ActorState::Jumping;
    Behavior::Input.apply(&mut jumping, &input(Tri::Zero, false, true), &ground(), false);
    assert_eq!(jumping.current_action, Action::JumpCut);
    let mut idle = standing();
    Behavior::Input.apply(&mut idle, &input(Tri::Zero, false, true), &ground(), false);
    assert_eq!(idle.current_action, Action::NoAction);
    // Press and release in one tick: the press wins on the ground.
    let mut both = standing();
    Behavior::Input.apply(&mut both, &input(Tri::Zero, true, true), &ground(), false);
    assert_eq!(both.current_action, Action::Jump);
}

#[test]
fn flap_turns_the_jump_intent_into_an_impulse() {
    let mut bat = Actor::new(
        EntityType::Bat.tags(),
        v(0, 0),
        None,
        v(0, 0),
        Some(v(358, 15)),
        Some(v(153, 2)),
    );
    bat.current_action = Action::Jump;
    bat.velocity = v(7, 40);
    let sound = Behavior::Flap.apply(&mut bat, &InputSnapshot::idle(), &[], false);
    assert_eq!(sound, Some(SoundEffect::BatFlap));
    assert_eq!(bat.state, ActorState::Jumping);
    assert_eq!(bat.velocity, v(7, 25));
    assert_eq!(bat.current_action, Action::NoAction);
    // Without the intent nothing moves, and nothing sounds.
    let sound = Behavior::Flap.apply(&mut bat, &InputSnapshot::idle(), &[], false);
    assert_eq!(sound, None);
    assert_eq!(bat.velocity, v(7, 25));
}

#[test]
fn flap_clears_any_intent() {
    let mut bat = Actor::new(EntityType::Bat.tags(), v(0, 0), None, v(0, 0), None, None);
    bat.current_action = Action::Attack;
    let sound = Behavior::Flap.apply(&mut bat, &InputSnapshot::idle(), &[], false);
    assert_eq!(sound, None);
    assert_eq!(bat.current_action, Action::NoAction);
    assert_eq!(bat.state, ActorState::Idle);
}

#[test]
fn rest_on_ground_is_left_as_it_is() {
    let mut actor = standing();
    for _ in 0..50 {
        let sound = Behavior::Input.apply(&mut actor, &InputSnapshot::idle(), &ground(), false);
        assert_eq!(sound, None);
        let sound = Behavior::Player.apply(&mut actor, &InputSnapshot::idle(), &ground(), false);
        assert_eq!(sound, None);
        actor.integrate();
        assert_eq!(actor, standing());
    }
}

#[test]
fn acceleration_starts_a_run() {
    let mut actor = standing();
    actor.direction_x = Tri::Positive;
    Behavior::Player.apply(&mut actor, &InputSnapshot::idle(), &ground(), false);
    assert_eq!(actor.velocity, v(153, 0));
    assert_eq!(actor.state, ActorState::Running);
    assert_eq!(actor.facing, Tri::Positive);
    let mut left = standing();
    left.direction_x = Tri::Negative;
    Behavior::Player.apply(&mut left, &InputSnapshot::idle(), &ground(), false);
    assert_eq!(left.velocity, v(-153, 0));
    assert_eq!(left.state, ActorState::Running);
    assert_eq!(left.facing, Tri::Negative);
}

#[test]
fn saturated_velocity_is_damped() {
    let mut actor = standing();
    actor.direction_x = Tri::Positive;
    actor.state = ActorState::Running;
    actor.velocity = v(459, 0);
    Behavior::Player.apply(&mut actor, &InputSnapshot::idle(), &ground(), false);
    // 459 is past the cap of 358: no push, so the velocity decays by the
    // factor 0.6.
    assert_eq!(actor.velocity, v(184, 0));
    assert_eq!(actor.state, ActorState::Running);
    assert_eq!(actor.facing, Tri::Zero);
}

#[test]
fn released_direction_decays_the_velocity_to_rest() {
    let mut actor = standing();
    actor.state = ActorState::Running;
    actor.velocity = v(-300, 0);
    let mut seen = Vec::new();
    for _ in 0..6 {
        Behavior::Player.apply(&mut actor, &InputSnapshot::idle(), &ground(), false);
        seen.push((actor.velocity.x.to_raw(), actor.state));
    }
    assert_eq!(
        seen,
        vec![
            (-121, ActorState::Running),
            (-49, ActorState::Running),
            (-20, ActorState::Running),
            (-9, ActorState::Running),
            (0, ActorState::Idle),
            (0, ActorState::Idle),
        ]
    );
}

#[test]
fn wall_zeroes_the_horizontal_velocity() {
    let rects = vec![px(0, 16, 64, 8), px(40, 0, 8, 16)];
    // Right side at 10234 raw, six units before the wall at 40 pixels.
    let mut actor = player_at(8186, 2142);
    actor.direction_x = Tri::Positive;
    Behavior::Player.apply(&mut actor, &InputSnapshot::idle(), &rects, false);
    assert_eq!(actor.velocity, v(0, 0));
    actor.integrate();
    assert_eq!(actor.collision_mask.position, v(8186, 2142));
    // Without the wall the same step moves the actor.
    let mut free = player_at(8186, 2142);
    free.direction_x = Tri::Positive;
    Behavior::Player.apply(&mut free, &InputSnapshot::idle(), &[px(0, 16, 64, 8)], false);
    assert_eq!(free.velocity, v(153, 0));
}

#[test]
fn gravity_applies_without_ground() {
    let mut actor = player_at(2560, 0);
    Behavior::Player.apply(&mut actor, &InputSnapshot::idle(), &ground(), false);
    assert_eq!(actor.velocity, v(0, 153));
    assert_eq!(actor.state, ActorState::Idle);
    Behavior::Player.apply(&mut actor, &InputSnapshot::idle(), &ground(), false);
    assert_eq!(actor.velocity, v(0, 306));
}

#[test]
fn landing_ends_a_jump() {
    let mut actor = player_at(2560, 1530);
    actor.velocity = v(0, 612);
    actor.state = ActorState::Jumping;
    Behavior::Player.apply(&mut actor, &InputSnapshot::idle(), &ground(), false);
    assert_eq!(actor.velocity, v(0, 0));
    assert_eq!(actor.state, ActorState::Idle);
}

#[test]
fn jump_impulse_is_the_velocity_cap() {
    let mut actor = standing();
    actor.current_action = Action::Jump;
    let sound = Behavior::Player.apply(&mut actor, &InputSnapshot::idle(), &ground(), false);
    assert_eq!(sound, Some(SoundEffect::Jump));
    assert_eq!(actor.state, ActorState::Jumping);
    assert_eq!(actor.velocity, v(0, -1792));
    assert_eq!(actor.current_action, Action::NoAction);
}

#[test]
fn jump_needs_ground() {
    let mut actor = player_at(2560, 0);
    actor.current_action = Action::Jump;
    let sound = Behavior::Player.apply(&mut actor, &InputSnapshot::idle(), &ground(), false);
    assert_eq!(sound, None);
    assert_eq!(actor.state, ActorState::Idle);
    assert_eq!(actor.velocity, v(0, 153));
    assert_eq!(actor.current_action, Action::NoAction);
}

#[test]
fn jump_into_a_ceiling_is_stopped() {
    // A ceiling four pixels above the head: the impulse of seven runs into it.
    let rects = vec![px(0, 16, 32, 8), px(0, 0, 32, 4)];
    let mut actor = standing();
    actor.current_action = Action::Jump;
    let sound = Behavior::Player.apply(&mut actor, &InputSnapshot::idle(), &rects, false);
    assert_eq!(sound, Some(SoundEffect::Jump));
    assert_eq!(actor.velocity, v(0, 0));
    // At rest again, the actor is idle.
    assert_eq!(actor.state, ActorState::Idle);
}

#[test]
fn tiny_jump_comes_to_rest_at_once() {
    let mut actor = standing();
    actor.max_velocity = v(358, 4);
    actor.current_action = Action::Jump;
    let sound = Behavior::Player.apply(&mut actor, &InputSnapshot::idle(), &ground(), false);
    assert_eq!(sound, Some(SoundEffect::Jump));
    assert_eq!(actor.velocity, v(0, 0));
    assert_eq!(actor.state, ActorState::Idle);
}

#[test]
fn jump_cut_zeroes_the_vertical_velocity() {
    let mut actor = player_at(2560, 350);
    actor.state = ActorState::Jumping;
    actor.velocity = v(200, -1792);
    actor.direction_x = Tri::Positive;
    actor.current_action = Action::JumpCut;
    Behavior::Player.apply(&mut actor, &InputSnapshot::idle(), &ground(), false);
    assert_eq!(actor.velocity, v(353, 0));
    assert_eq!(actor.state, ActorState::Jumping);
    assert_eq!(actor.current_action, Action::NoAction);
}

#[test]
fn contact_costs_one_unit_of_health() {
    let mut actor = standing();
    Behavior::Player.apply(&mut actor, &InputSnapshot::idle(), &ground(), true);
    assert_eq!(actor.health, fx(25600 - 256));
    let mut expected = standing();
    expected.health = fx(25600 - 256);
    assert_eq!(actor, expected);
    // The other rules do not look at the contact.
    let mut other = standing();
    Behavior::Input.apply(&mut other, &InputSnapshot::idle(), &ground(), true);
    Behavior::Flap.apply(&mut other, &InputSnapshot::idle(), &ground(), true);
    assert_eq!(other, standing());
}

#[test]
fn attack_intent_is_consumed_without_effect() {
    let mut actor = standing();
    actor.current_action = Action::Attack;
    let sound = Behavior::Player.apply(&mut actor, &InputSnapshot::idle(), &ground(), false);
    assert_eq!(sound, None);
    assert_eq!(actor, standing());
}

#[test]
fn tick_actor_runs_the_behaviors_in_order_then_moves() {
    let behaviors = [Behavior::Input, Behavior::Player];
    let outcome = tick_actor(&behaviors, &standing(), &input(Tri::Positive, true, false), &ground(), false)
        .unwrap();
    // The press of this tick is seen by the physics of this tick.
    assert_eq!(outcome.sounds, vec![SoundEffect::Jump]);
    assert_eq!(outcome.actor.state, ActorState::Jumping);
    assert_eq!(outcome.actor.velocity, v(153, -1792));
    assert_eq!(outcome.actor.collision_mask.position, v(2560 + 153, 2048 - 1792));
    // In the other order the physics run before the input is read.
    let reversed = [Behavior::Player, Behavior::Input];
    let outcome = tick_actor(&reversed, &standing(), &input(Tri::Positive, true, false), &ground(), false)
        .unwrap();
    assert!(outcome.sounds.is_empty());
    assert_eq!(outcome.actor.velocity, v(0, 0));
    assert_eq!(outcome.actor.current_action, Action::Jump);
    assert_eq!(outcome.actor.direction_x, Tri::Positive);
}

#[test]
fn tick_actor_without_behaviors_only_moves() {
    let mut actor = standing();
    actor.velocity = v(10, -20);
    let outcome = tick_actor(&[], &actor, &InputSnapshot::idle(), &ground(), true).unwrap();
    assert!(outcome.sounds.is_empty());
    let mut expected = actor;
    expected.collision_mask.position = v(2570, 2028);
    assert_eq!(outcome.actor, expected);
}

#[test]
fn tick_actor_refuses_what_leaves_the_range() {
    let mut actor = standing();
    actor.velocity = v(0x100_0001, 0);
    assert!(tick_actor(&[Behavior::Player], &actor, &InputSnapshot::idle(), &ground(), false).is_none());
    // Without a behavior only the move has to fit.
    assert!(tick_actor(&[], &actor, &InputSnapshot::idle(), &ground(), false).is_some());
    actor.collision_mask.position = v(i32::MAX, 0);
    assert!(tick_actor(&[], &actor, &InputSnapshot::idle(), &ground(), false).is_none());
}

#[test]
fn two_flaps_in_one_tick_sound_once() {
    let mut bat = Actor::new(
        EntityType::Bat.tags(),
        v(0, 0),
        None,
        v(0, 0),
        Some(v(358, 15)),
        Some(v(153, 2)),
    );
    bat.current_action = Action::Jump;
    let outcome =
        tick_actor(&[Behavior::Flap, Behavior::Flap], &bat, &InputSnapshot::idle(), &[], false).unwrap();
    assert_eq!(outcome.sounds, vec![SoundEffect::BatFlap]);
    assert_eq!(outcome.actor.velocity, v(0, -15));
    assert_eq!(outcome.actor.collision_mask.position, v(0, -15));
}
