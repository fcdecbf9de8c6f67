//! What holds of the dynamics, whatever the actor and the level: rest is
//! stable, walls stop, jumps start with the full impulse, a cut jump peaks
//! lower, and contact costs health once.

use crate::actor::{
    column_hit, hits_ceiling, hits_ground, hits_wall, leading_x, sample, wall_hit, Action,
    ActorModel, ActorState, DAMAGE_RAW,
};
use crate::behaviors::{
    airborne, almost_at_rest, cut_jump, grounded, horizontal, jump_triggered, player_step, run,
    run_in_range, start_jump, tick, tick_fits, Behavior, EDGE_SAMPLING_RAW, WALL_SAMPLING_RAW,
};
use crate::fixed::{lemma_mul_raw_bound, lemma_mul_raw_zero, within, STATE_LIMIT, TUNING_LIMIT};
use crate::game::{camera, follow, GameModel, HALF_HEIGHT_RAW, HALF_WIDTH_RAW};
use crate::registry::index_of;
use crate::geometry::{contains_point, pixel_rect_to_fixed, Rect, Vector2D};
use crate::input::{InputSnapshot, Tri};
use crate::sfx::SoundEffect;
use crate::util::lerp_raw;
use vstd::prelude::*;

verus! {

/// The snapshot of untouched controls.
pub open spec fn idle_input() -> InputSnapshot {
    InputSnapshot {
        x_tri: Tri::Zero,
        y_tri: Tri::Zero,
        jump_just_pressed: false,
        jump_just_released: false,
    }
}

/// An actor at rest on solid ground: it does not move, it is idle, it has
/// no intent and no horizontal input, and its bottom edge meets a rectangle
/// of the level.
pub open spec fn resting(a: ActorModel, rects: Seq<Rect<i32>>) -> bool {
    &&& a.velocity == Vector2D::<int> { x: 0, y: 0 }
    &&& a.state == ActorState::Idle
    &&& a.current_action == Action::NoAction
    &&& a.direction_x == Tri::Zero
    &&& hits_ground(a, rects, EDGE_SAMPLING_RAW as int)
}

/// The input and the contact of one tick.
pub struct TickConditions {
    pub input: InputSnapshot,
    /// Whether the actor is the player and overlaps a tracked enemy.
    pub contact: bool,
}

/// The actor after one tick for each element of `conditions`, in order.
pub open spec fn after_ticks(
    behaviors: Seq<Behavior>,
    a: ActorModel,
    conditions: Seq<TickConditions>,
    rects: Seq<Rect<i32>>,
) -> ActorModel
    decreases conditions.len(),
{
    if conditions.len() == 0 {
        a
    } else {
        after_ticks(
            behaviors,
            tick(behaviors, a, conditions[0].input, rects, conditions[0].contact),
            conditions.drop_first(),
            rects,
        )
    }
}

/// The smallest ordinate that the actor has at the start and after each of
/// the ticks: its peak, since ordinates grow downward.
pub open spec fn peak(
    behaviors: Seq<Behavior>,
    a: ActorModel,
    conditions: Seq<TickConditions>,
    rects: Seq<Rect<i32>>,
) -> int
    decreases conditions.len(),
{
    if conditions.len() == 0 {
        a.collision_mask.position.y
    } else {
        let rest = peak(
            behaviors,
            tick(behaviors, a, conditions[0].input, rects, conditions[0].contact),
            conditions.drop_first(),
            rects,
        );
        if a.collision_mask.position.y <= rest {
            a.collision_mask.position.y
        } else {
            rest
        }
    }
}

/// Whether no element of `conditions` has the controls touched.
pub open spec fn all_idle(conditions: Seq<TickConditions>) -> bool {
    forall|i: int| 0 <= i < conditions.len() ==> (#[trigger] conditions[i]).input == idle_input()
}

/// Whether no element of `conditions` has a fresh press of the jump button.
pub open spec fn no_jump_press(conditions: Seq<TickConditions>) -> bool {
    forall|i: int| 0 <= i < conditions.len() ==> !(#[trigger] conditions[i]).input.jump_just_pressed
}

/// The behaviors of a player: the input rule, then the ground physics.
pub open spec fn player_rig() -> Seq<Behavior> {
    seq![Behavior::Input, Behavior::Player]
}

/// The health of an actor has no part in its hit tests.
proof fn lemma_hit_tests_ignore_health(a: ActorModel, b: ActorModel, rects: Seq<Rect<i32>>)
    requires
        a.collision_mask == b.collision_mask,
        a.velocity == b.velocity,
    ensures
        hits_ground(a, rects, EDGE_SAMPLING_RAW as int) == hits_ground(
            b,
            rects,
            EDGE_SAMPLING_RAW as int,
        ),
        hits_ceiling(a, rects, EDGE_SAMPLING_RAW as int) == hits_ceiling(
            b,
            rects,
            EDGE_SAMPLING_RAW as int,
        ),
        hits_wall(a, rects, WALL_SAMPLING_RAW as int) == hits_wall(
            b,
            rects,
            WALL_SAMPLING_RAW as int,
        ),
{
    assert(a.bounds() == b.bounds());
    assert(leading_x(a) == leading_x(b));
}

/// One step of any behavior leaves an actor at rest on solid ground as it
/// is, when the controls are untouched; only contact takes health from it.
pub proof fn lemma_rest_survives_step(
    behavior: Behavior,
    a: ActorModel,
    rects: Seq<Rect<i32>>,
    contact: bool,
)
    requires
        resting(a, rects),
    ensures
        behavior.step(a, idle_input(), rects, contact) == if behavior == Behavior::Player
            && contact {
            a.damaged()
        } else {
            a
        },
        resting(behavior.step(a, idle_input(), rects, contact), rects),
{
    lemma_mul_raw_zero(256 - a.acceleration.x);
    lemma_mul_raw_zero(a.acceleration.x);
    let h = horizontal(a);
    assert(h == a);
    let g = grounded(a, rects);
    assert(g == a);
    let up = airborne(a, rects);
    assert(up == a);
    lemma_hit_tests_ignore_health(a, a.damaged(), rects);
}

/// Any sequence of behaviors leaves an actor at rest on solid ground at
/// rest, with its position, when the controls are untouched.
pub proof fn lemma_rest_survives_run(
    behaviors: Seq<Behavior>,
    a: ActorModel,
    rects: Seq<Rect<i32>>,
    contact: bool,
)
    requires
        resting(a, rects),
    ensures
        resting(run(behaviors, a, idle_input(), rects, contact), rects),
        run(behaviors, a, idle_input(), rects, contact).collision_mask == a.collision_mask,
    decreases behaviors.len(),
{
    if behaviors.len() > 0 {
        lemma_rest_survives_run(behaviors.drop_last(), a, rects, contact);
        let before = run(behaviors.drop_last(), a, idle_input(), rects, contact);
        lemma_rest_survives_step(behaviors.last(), before, rects, contact);
    }
}

/// Idempotent settling. With the controls untouched, a tick leaves an actor
/// at rest on solid ground where it is: afterwards its velocity is exactly
/// zero, it is idle, and it has not moved.
pub proof fn lemma_rest_is_stable(
    behaviors: Seq<Behavior>,
    a: ActorModel,
    rects: Seq<Rect<i32>>,
    contact: bool,
)
    requires
        resting(a, rects),
    ensures
        resting(tick(behaviors, a, idle_input(), rects, contact), rects),
        tick(behaviors, a, idle_input(), rects, contact).velocity == (Vector2D::<int> {
            x: 0,
            y: 0,
        }),
        tick(behaviors, a, idle_input(), rects, contact).state == ActorState::Idle,
        tick(behaviors, a, idle_input(), rects, contact).collision_mask == a.collision_mask,
{
    lemma_rest_survives_run(behaviors, a, rects, contact);
    let r = run(behaviors, a, idle_input(), rects, contact);
    assert(r.integrate().collision_mask == r.collision_mask);
    lemma_hit_tests_ignore_health(r, r.integrate(), rects);
}

/// Idempotent settling, over time. With the controls untouched, any number
/// of ticks leaves an actor at rest on solid ground where it is, with a
/// velocity of exactly zero and idle.
pub proof fn lemma_rest_is_stable_over_time(
    behaviors: Seq<Behavior>,
    a: ActorModel,
    conditions: Seq<TickConditions>,
    rects: Seq<Rect<i32>>,
)
    requires
        resting(a, rects),
        all_idle(conditions),
    ensures
        resting(after_ticks(behaviors, a, conditions, rects), rects),
        after_ticks(behaviors, a, conditions, rects).velocity == (Vector2D::<int> { x: 0, y: 0 }),
        after_ticks(behaviors, a, conditions, rects).state == ActorState::Idle,
        after_ticks(behaviors, a, conditions, rects).collision_mask == a.collision_mask,
    decreases conditions.len(),
{
    if conditions.len() > 0 {
        assert(conditions[0].input == idle_input());
        lemma_rest_is_stable(behaviors, a, rects, conditions[0].contact);
        let next = tick(behaviors, a, idle_input(), rects, conditions[0].contact);
        assert forall|i: int| 0 <= i < conditions.drop_first().len() implies (
        #[trigger] conditions.drop_first()[i]).input == idle_input() by {
            assert(conditions.drop_first()[i] == conditions[i + 1]);
        }
        lemma_rest_is_stable_over_time(behaviors, next, conditions.drop_first(), rects);
    }
}

/// Wall stop. When the wall check of the ground physics detects contact,
/// the horizontal velocity is exactly zero after the step, and the move that
/// follows leaves the actor where it is horizontally: a side that was not
/// beyond an edge of a rectangle before the tick is not beyond it after.
pub proof fn lemma_wall_stops(a: ActorModel, rects: Seq<Rect<i32>>, contact: bool)
    requires
        hits_wall(horizontal(a), rects, WALL_SAMPLING_RAW as int),
    ensures
        player_step(a, rects, contact).velocity.x == 0,
        player_step(a, rects, contact).integrate().collision_mask.position.x
            == a.collision_mask.position.x,
        player_step(a, rects, contact).integrate().collision_mask.size == a.collision_mask.size,
{
}

/// The wall check detects a rectangle that holds the first probe: the
/// point of the predicted leading side at the predicted top of the actor,
/// provided the side has any extent left after taking off the vertical
/// velocity.
pub proof fn lemma_wall_is_detected(a: ActorModel, rects: Seq<Rect<i32>>, i: int, sampling: int)
    requires
        0 <= i < rects.len(),
        a.collision_mask.size.y > a.velocity.y,
        contains_point(
            pixel_rect_to_fixed(rects[i]),
            Vector2D { x: leading_x(a), y: a.bounds().min_y },
        ),
    ensures
        hits_wall(a, rects, sampling),
{
    let b = a.bounds();
    assert(0 * sampling == 0) by (nonlinear_arith);
    assert(sample(b.min_y, sampling, 0) == b.min_y);
    assert(column_hit(
        pixel_rect_to_fixed(rects[i]),
        leading_x(a),
        b.min_y,
        b.max_y - a.velocity.y,
        sampling,
    ));
    assert(wall_hit(a, pixel_rect_to_fixed(rects[i]), sampling));
}

/// Jump impulse. When the ground check of the step finds ground and the
/// actor has the jump intent, the step leaves it jumping with a vertical
/// velocity of exactly minus the vertical velocity cap, and asks for the
/// jump sound; unless the new velocity runs the actor into a ceiling, or is
/// so small that the actor comes to rest at once.
pub proof fn lemma_jump_impulse(a: ActorModel, rects: Seq<Rect<i32>>, contact: bool)
    requires
        a.current_action == Action::Jump,
        hits_ground(
            crate::behaviors::stop_at_wall(horizontal(a), rects),
            rects,
            EDGE_SAMPLING_RAW as int,
        ),
        !hits_ceiling(start_jump(grounded(a, rects)), rects, EDGE_SAMPLING_RAW as int),
        !almost_at_rest(start_jump(grounded(a, rects))),
    ensures
        player_step(a, rects, contact).state == ActorState::Jumping,
        player_step(a, rects, contact).velocity.y == -a.max_velocity.y,
        player_step(a, rects, contact).current_action == Action::NoAction,
        Behavior::Player.sound(a, rects) == Some(SoundEffect::Jump),
{
    let g = grounded(a, rects);
    assert(jump_triggered(g));
    let j = start_jump(g);
    assert(cut_jump(j) == j);
}

/// Jump impulse, for an actor at rest. An actor that does not move, has no
/// horizontal input, stands on ground and has the jump intent is left
/// jumping by the step, with a vertical velocity of exactly minus the
/// vertical velocity cap; unless that velocity runs it into a ceiling or is
/// within the rest margin.
pub proof fn lemma_jump_impulse_from_rest(a: ActorModel, rects: Seq<Rect<i32>>, contact: bool)
    requires
        a.velocity == (Vector2D::<int> { x: 0, y: 0 }),
        a.direction_x == Tri::Zero,
        a.current_action == Action::Jump,
        hits_ground(a, rects, EDGE_SAMPLING_RAW as int),
        !hits_ceiling(
            ActorModel {
                state: ActorState::Jumping,
                velocity: Vector2D { x: 0, y: -a.max_velocity.y },
                ..a
            },
            rects,
            EDGE_SAMPLING_RAW as int,
        ),
        !crate::close_to_zero::near_zero(
            -a.max_velocity.y,
            crate::behaviors::REST_MARGIN_RAW as int,
        ),
    ensures
        player_step(a, rects, contact).state == ActorState::Jumping,
        player_step(a, rects, contact).velocity.y == -a.max_velocity.y,
{
    lemma_mul_raw_zero(256 - a.acceleration.x);
    lemma_mul_raw_zero(a.acceleration.x);
    assert(horizontal(a) == a);
    assert(crate::behaviors::stop_at_wall(horizontal(a), rects) == a);
    let g = grounded(a, rects);
    let j = start_jump(g);
    assert(j == ActorModel {
        state: ActorState::Jumping,
        velocity: Vector2D { x: 0, y: -a.max_velocity.y },
        ..a
    });
    lemma_jump_impulse(a, rects, contact);
}

/// The ground physics change velocity, state, facing, intent and health of
/// an actor, and nothing else; the intent is consumed.
pub proof fn lemma_player_step_keeps_place(a: ActorModel, rects: Seq<Rect<i32>>, contact: bool)
    ensures
        player_step(a, rects, contact).collision_mask == a.collision_mask,
        player_step(a, rects, contact).acceleration == a.acceleration,
        player_step(a, rects, contact).max_velocity == a.max_velocity,
        player_step(a, rects, contact).sprite_offset == a.sprite_offset,
        player_step(a, rects, contact).tags == a.tags,
        player_step(a, rects, contact).visible == a.visible,
        player_step(a, rects, contact).direction_x == a.direction_x,
        player_step(a, rects, contact).current_action == Action::NoAction,
{
    let h = horizontal(a);
    assert(h.collision_mask == a.collision_mask && h.acceleration == a.acceleration
        && h.max_velocity == a.max_velocity && h.sprite_offset == a.sprite_offset && h.tags
        == a.tags && h.visible == a.visible && h.direction_x == a.direction_x);
    let g = grounded(a, rects);
    assert(g.collision_mask == a.collision_mask && g.acceleration == a.acceleration
        && g.max_velocity == a.max_velocity && g.sprite_offset == a.sprite_offset && g.tags
        == a.tags && g.visible == a.visible && g.direction_x == a.direction_x);
    let up = airborne(a, rects);
    assert(up.collision_mask == a.collision_mask && up.acceleration == a.acceleration
        && up.max_velocity == a.max_velocity && up.sprite_offset == a.sprite_offset && up.tags
        == a.tags && up.visible == a.visible && up.direction_x == a.direction_x);
}

/// The vertical velocity after the ground physics is zero, or the velocity
/// before plus the vertical acceleration, or, for an actor with the jump
/// intent, minus the vertical velocity cap.
pub proof fn lemma_player_step_vertical(a: ActorModel, rects: Seq<Rect<i32>>, contact: bool)
    ensures
        ({
            let vy = player_step(a, rects, contact).velocity.y;
            ||| vy == 0
            ||| vy == a.velocity.y + a.acceleration.y
            ||| a.current_action == Action::Jump && vy == -a.max_velocity.y
        }),
{
    let h = horizontal(a);
    assert(h.velocity.y == a.velocity.y && h.acceleration == a.acceleration && h.max_velocity
        == a.max_velocity && h.current_action == a.current_action);
    let w = crate::behaviors::stop_at_wall(h, rects);
    assert(w.velocity.y == a.velocity.y && w.acceleration == a.acceleration && w.max_velocity
        == a.max_velocity && w.current_action == a.current_action);
    let g = grounded(a, rects);
    assert(g.velocity.y == 0 || g.velocity.y == a.velocity.y + a.acceleration.y);
    assert(g.max_velocity == a.max_velocity && g.current_action == a.current_action);
    let j = cut_jump(start_jump(g));
    assert(j.velocity.y == 0 || j.velocity.y == g.velocity.y || (a.current_action == Action::Jump
        && j.velocity.y == -a.max_velocity.y));
    let up = airborne(a, rects);
    assert(up.velocity.y == 0 || up.velocity.y == j.velocity.y);
}

/// With the behaviors of a player, an actor that is not moving upward, is
/// pulled downward or not at all, and gets no jump does not move upward in
/// the next tick either.
pub proof fn lemma_no_rise_without_jump(
    a: ActorModel,
    conditions: TickConditions,
    rects: Seq<Rect<i32>>,
)
    requires
        a.velocity.y >= 0,
        a.acceleration.y >= 0,
        a.current_action != Action::Jump,
        !conditions.input.jump_just_pressed,
    ensures
        ({
            let b = tick(player_rig(), a, conditions.input, rects, conditions.contact);
            &&& b.velocity.y >= 0
            &&& b.collision_mask.position.y >= a.collision_mask.position.y
            &&& b.acceleration == a.acceleration
            &&& b.current_action == Action::NoAction
        }),
{
    lemma_player_rig_run(a, conditions, rects);
    let i = crate::behaviors::input_step(a, conditions.input);
    assert(i.current_action != Action::Jump);
    lemma_player_step_keeps_place(i, rects, conditions.contact);
    lemma_player_step_vertical(i, rects, conditions.contact);
}

/// The behaviors of a player run the input rule, then the ground physics.
proof fn lemma_player_rig_run(a: ActorModel, conditions: TickConditions, rects: Seq<Rect<i32>>)
    ensures
        run(player_rig(), a, conditions.input, rects, conditions.contact) == player_step(
            crate::behaviors::input_step(a, conditions.input),
            rects,
            conditions.contact,
        ),
{
    let rig = player_rig();
    assert(rig.drop_last() =~= seq![Behavior::Input]);
    assert(rig.drop_last().drop_last() =~= Seq::<Behavior>::empty());
    assert(rig.last() == Behavior::Player);
    assert(rig.drop_last().last() == Behavior::Input);
    reveal_with_fuel(run, 3);
}

/// The peak is never below the place where the actor starts.
proof fn lemma_peak_at_most_start(
    behaviors: Seq<Behavior>,
    a: ActorModel,
    conditions: Seq<TickConditions>,
    rects: Seq<Rect<i32>>,
)
    ensures
        peak(behaviors, a, conditions, rects) <= a.collision_mask.position.y,
    decreases conditions.len(),
{
}

/// With the behaviors of a player, an actor that is not moving upward, is
/// pulled downward or not at all, and gets no jump has its peak where it
/// starts.
pub proof fn lemma_peak_without_jump(
    a: ActorModel,
    conditions: Seq<TickConditions>,
    rects: Seq<Rect<i32>>,
)
    requires
        a.velocity.y >= 0,
        a.acceleration.y >= 0,
        a.current_action != Action::Jump,
        no_jump_press(conditions),
    ensures
        peak(player_rig(), a, conditions, rects) == a.collision_mask.position.y,
    decreases conditions.len(),
{
    if conditions.len() > 0 {
        assert(!conditions[0].input.jump_just_pressed);
        lemma_no_rise_without_jump(a, conditions[0], rects);
        let next = tick(player_rig(), a, conditions[0].input, rects, conditions[0].contact);
        assert forall|i: int| 0 <= i < conditions.drop_first().len() implies !(
        #[trigger] conditions.drop_first()[i]).input.jump_just_pressed by {
            assert(conditions.drop_first()[i] == conditions[i + 1]);
        }
        lemma_peak_without_jump(next, conditions.drop_first(), rects);
    }
}

/// With the behaviors of a player, a tick in which a jumping actor gets the
/// release of the jump button leaves it without vertical velocity, at the
/// height it had, with its intent consumed.
pub proof fn lemma_cut_stops_ascent(
    a: ActorModel,
    conditions: TickConditions,
    rects: Seq<Rect<i32>>,
)
    requires
        a.state == ActorState::Jumping,
        conditions.input.jump_just_released,
    ensures
        ({
            let b = tick(player_rig(), a, conditions.input, rects, conditions.contact);
            &&& b.velocity.y == 0
            &&& b.collision_mask.position.y == a.collision_mask.position.y
            &&& b.acceleration == a.acceleration
            &&& b.current_action == Action::NoAction
        }),
{
    lemma_player_rig_run(a, conditions, rects);
    let i = crate::behaviors::input_step(a, conditions.input);
    assert(i.current_action == Action::JumpCut);
    let g = grounded(i, rects);
    assert(!jump_triggered(g));
    assert(cut_jump(start_jump(g)).velocity.y == 0);
}

/// The peak of a cut jump is the height at which it is cut: a jumping actor
/// with the behaviors of a player, pulled downward or not at all, that gets
/// the release of the jump button in the first tick and no press after it,
/// never has a smaller ordinate than at the start.
pub proof fn lemma_cut_jump_peak(
    a: ActorModel,
    cut: Seq<TickConditions>,
    rects: Seq<Rect<i32>>,
)
    requires
        a.state == ActorState::Jumping,
        a.acceleration.y >= 0,
        cut.len() >= 1,
        cut[0].input.jump_just_released,
        no_jump_press(cut.drop_first()),
    ensures
        peak(player_rig(), a, cut, rects) == a.collision_mask.position.y,
{
    lemma_cut_stops_ascent(a, cut[0], rects);
    let stopped = tick(player_rig(), a, cut[0].input, rects, cut[0].contact);
    lemma_peak_without_jump(stopped, cut.drop_first(), rects);
}

/// No behavior moves an actor or changes its tuning: only the move by the
/// velocity, after all behaviors of the tick have run, changes a position.
pub proof fn lemma_behaviors_keep_place(
    behaviors: Seq<Behavior>,
    a: ActorModel,
    input: InputSnapshot,
    rects: Seq<Rect<i32>>,
    contact: bool,
)
    ensures
        run(behaviors, a, input, rects, contact).collision_mask == a.collision_mask,
        run(behaviors, a, input, rects, contact).acceleration == a.acceleration,
        run(behaviors, a, input, rects, contact).max_velocity == a.max_velocity,
    decreases behaviors.len(),
{
    if behaviors.len() > 0 {
        lemma_behaviors_keep_place(behaviors.drop_last(), a, input, rects, contact);
        let before = run(behaviors.drop_last(), a, input, rects, contact);
        match behaviors.last() {
            Behavior::Player => {
                lemma_player_step_keeps_place(before, rects, contact);
            },
            _ => {},
        }
    }
}

/// The peak of a jump that still rises after the first tick is above the
/// height at which that tick starts: its ordinate is strictly smaller.
pub proof fn lemma_free_jump_peak(
    behaviors: Seq<Behavior>,
    a: ActorModel,
    free: Seq<TickConditions>,
    rects: Seq<Rect<i32>>,
)
    requires
        free.len() >= 1,
        tick(behaviors, a, free[0].input, rects, free[0].contact).velocity.y < 0,
    ensures
        peak(behaviors, a, free, rects) < a.collision_mask.position.y,
{
    let risen = tick(behaviors, a, free[0].input, rects, free[0].contact);
    lemma_behaviors_keep_place(behaviors, a, free[0].input, rects, free[0].contact);
    lemma_peak_at_most_start(behaviors, risen, free.drop_first(), rects);
}

/// Jump cut shortens the ascent. Take a jumping actor with the behaviors of
/// a player, pulled downward or not at all, and follow it twice. In `cut`
/// the jump button is released in the first tick and not pressed again; in
/// `free` the actor is still moving upward after the first tick. Then the
/// peak of the cut jump is strictly lower in height than the peak of the
/// free jump: its smallest ordinate is strictly greater.
pub proof fn lemma_jump_cut_lowers_peak(
    a: ActorModel,
    cut: Seq<TickConditions>,
    free: Seq<TickConditions>,
    rects: Seq<Rect<i32>>,
)
    requires
        a.state == ActorState::Jumping,
        a.acceleration.y >= 0,
        cut.len() >= 1,
        free.len() >= 1,
        cut[0].input.jump_just_released,
        no_jump_press(cut.drop_first()),
        tick(player_rig(), a, free[0].input, rects, free[0].contact).velocity.y < 0,
    ensures
        peak(player_rig(), a, cut, rects) > peak(player_rig(), a, free, rects),
{
    lemma_cut_jump_peak(a, cut, rects);
    lemma_free_jump_peak(player_rig(), a, free, rects);
}

/// Contact damage. A step of the ground physics with contact takes exactly
/// one unit of health, however many enemies overlap the player; a step
/// without contact takes none. Nothing else of the actor depends on the
/// contact.
pub proof fn lemma_contact_damage(a: ActorModel, rects: Seq<Rect<i32>>)
    ensures
        player_step(a, rects, true).health == a.health - DAMAGE_RAW,
        player_step(a, rects, false).health == a.health,
        player_step(a, rects, true) == player_step(a, rects, false).damaged(),
{
}

/// On one axis the camera never passes its bound; and from a place within
/// the bound on both sides, with the player no further than twice the bound,
/// it stays within the bound on both sides. The bound is a whole number of
/// pixels.
pub proof fn lemma_follow_is_clamped(scroll: int, bound: int, position: int)
    requires
        bound >= 0,
        bound % 256 == 0,
    ensures
        follow(scroll, bound, position) <= bound,
        -bound <= scroll && position <= 2 * bound ==> -bound <= follow(scroll, bound, position),
{
}

/// Camera clamp. The camera never scrolls past half the screen toward
/// positive coordinates, wherever the player is. Where it starts within
/// half the screen of the origin on both sides, and the player is no further
/// right or down than the size of the screen, it stays within half the
/// screen on both sides.
pub proof fn lemma_camera_is_clamped(scroll: Vector2D<int>, position: Vector2D<int>)
    ensures
        camera(scroll, position).x <= HALF_WIDTH_RAW,
        camera(scroll, position).y <= HALF_HEIGHT_RAW,
        -HALF_WIDTH_RAW <= scroll.x && position.x <= 2 * HALF_WIDTH_RAW ==> within(
            camera(scroll, position).x,
            HALF_WIDTH_RAW as int,
        ),
        -HALF_HEIGHT_RAW <= scroll.y && position.y <= 2 * HALF_HEIGHT_RAW ==> within(
            camera(scroll, position).y,
            HALF_HEIGHT_RAW as int,
        ),
{
    lemma_follow_is_clamped(scroll.x, HALF_WIDTH_RAW as int, position.x);
    lemma_follow_is_clamped(scroll.y, HALF_HEIGHT_RAW as int, position.y);
}

/// Camera clamp, over a tick of the game. A camera that has not passed
/// half the screen toward positive coordinates has not done so after the
/// tick. A camera within half the screen of the origin on both sides is so
/// after the tick, provided the tick leaves the player no further right or
/// down than the size of the screen.
pub proof fn lemma_tick_keeps_camera_clamped(
    game: GameModel,
    after: GameModel,
    input: InputSnapshot,
)
    requires
        game.ticks_to(after, input),
        game.scroll_pos.x <= HALF_WIDTH_RAW,
        game.scroll_pos.y <= HALF_HEIGHT_RAW,
    ensures
        after.scroll_pos.x <= HALF_WIDTH_RAW,
        after.scroll_pos.y <= HALF_HEIGHT_RAW,
        (-HALF_WIDTH_RAW <= game.scroll_pos.x && -HALF_HEIGHT_RAW <= game.scroll_pos.y && (index_of(
            game.actors,
            game.player,
        ) matches Some(p) ==> game.ticked(p, input).collision_mask.position.x <= 2
            * HALF_WIDTH_RAW && game.ticked(p, input).collision_mask.position.y <= 2
            * HALF_HEIGHT_RAW)) ==> within(after.scroll_pos.x, HALF_WIDTH_RAW as int) && within(
            after.scroll_pos.y,
            HALF_HEIGHT_RAW as int,
        ),
{
    match index_of(game.actors, game.player) {
        Some(p) => {
            lemma_camera_is_clamped(
                game.scroll_pos,
                game.ticked(p, input).collision_mask.position,
            );
        },
        None => {},
    }
}

/// Contact damage, over a tick of the game. An actor that has the ground
/// physics once among its behaviors loses exactly one unit of health in a
/// tick in which it is the player and overlaps a tracked enemy, however many
/// enemies overlap it, and none in any other tick.
pub proof fn lemma_tick_takes_health_once(game: GameModel, i: int, input: InputSnapshot)
    requires
        0 <= i < game.actors.len(),
        game.behaviors_of(i) == player_rig(),
    ensures
        game.ticked(i, input).health == if game.contact(i) {
            game.actors[i].1@.health - DAMAGE_RAW
        } else {
            game.actors[i].1@.health
        },
{
    lemma_player_rig_run(
        game.actors[i].1@,
        TickConditions { input, contact: game.contact(i) },
        game.solids(),
    );
}

/// The horizontal part of the ground physics changes the horizontal
/// velocity only, besides state and facing, and keeps it in reach.
proof fn lemma_horizontal_in_reach(a: ActorModel)
    requires
        a.in_range(),
    ensures
        within(horizontal(a).velocity.x, 0x4200_0000),
        horizontal(a).velocity.y == a.velocity.y,
        horizontal(a).collision_mask == a.collision_mask,
        horizontal(a).acceleration == a.acceleration,
        horizontal(a).max_velocity == a.max_velocity,
        horizontal(a).current_action == a.current_action,
{
    lemma_mul_raw_bound(
        a.velocity.x,
        256 - a.acceleration.x,
        STATE_LIMIT as int,
        TUNING_LIMIT as int + 256,
    );
    lemma_mul_raw_zero(a.acceleration.x);
}

/// The wall check and the ground check keep the velocity in reach.
proof fn lemma_grounded_in_reach(a: ActorModel, rects: Seq<Rect<i32>>)
    requires
        a.in_range(),
    ensures
        within(grounded(a, rects).velocity.x, 0x4200_0000),
        within(grounded(a, rects).velocity.y, STATE_LIMIT + TUNING_LIMIT),
        grounded(a, rects).collision_mask == a.collision_mask,
        grounded(a, rects).max_velocity == a.max_velocity,
{
    lemma_horizontal_in_reach(a);
    let h = horizontal(a);
    let w = crate::behaviors::stop_at_wall(h, rects);
    assert(w.velocity.x == h.velocity.x || w.velocity.x == 0);
    assert(w.velocity.y == a.velocity.y);
    assert(w.acceleration == a.acceleration);
}

/// A step of the ground physics on an actor in range leaves a velocity
/// that the move after it can add to the position within the machine word.
pub proof fn lemma_player_step_stays_in_reach(a: ActorModel, rects: Seq<Rect<i32>>, contact: bool)
    requires
        a.in_range(),
    ensures
        within(player_step(a, rects, contact).velocity.x, 0x4200_0000),
        within(player_step(a, rects, contact).velocity.y, 2 * STATE_LIMIT),
        player_step(a, rects, contact).collision_mask == a.collision_mask,
        player_step(a, rects, contact).integrate_fits(),
{
    lemma_grounded_in_reach(a, rects);
    let g = grounded(a, rects);
    let j = cut_jump(start_jump(g));
    assert(j.velocity.x == g.velocity.x);
    assert(j.velocity.y == g.velocity.y || j.velocity.y == -a.max_velocity.y || j.velocity.y == 0);
    assert(j.collision_mask == a.collision_mask);
    let up = airborne(a, rects);
    assert(up.velocity.x == j.velocity.x);
    assert(up.velocity.y == j.velocity.y || up.velocity.y == 0);
    assert(up.collision_mask == a.collision_mask);
}

/// An actor in range, with the behaviors of a player, can be ticked within
/// the machine word, whatever the input, the level and the contact.
pub proof fn lemma_player_in_range_can_tick(
    a: ActorModel,
    input: InputSnapshot,
    rects: Seq<Rect<i32>>,
    contact: bool,
)
    requires
        a.in_range(),
    ensures
        tick_fits(player_rig(), a, input, rects, contact),
{
    let conditions = TickConditions { input, contact };
    lemma_player_rig_run(a, conditions, rects);
    let rig = player_rig();
    assert(rig.drop_last() =~= seq![Behavior::Input]);
    assert(rig.drop_last().drop_last() =~= Seq::<Behavior>::empty());
    reveal_with_fuel(run, 3);
    reveal_with_fuel(run_in_range, 3);
    let i = crate::behaviors::input_step(a, input);
    assert(i.in_range());
    assert(run(rig.drop_last(), a, input, rects, contact) == i);
    lemma_player_step_stays_in_reach(i, rects, contact);
}

/// Idempotent settling, over a tick of the game. With the controls
/// untouched, a tick of the game leaves every actor that is at rest on solid
/// ground at rest where it is, whatever its behaviors: its velocity is
/// exactly zero and it is idle.
pub proof fn lemma_game_keeps_rest(game: GameModel, after: GameModel, i: int)
    requires
        game.ticks_to(after, idle_input()),
        0 <= i < game.actors.len(),
        resting(game.actors[i].1@, game.solids()),
    ensures
        resting(after.actors[i].1@, after.solids()),
        after.actors[i].1@.velocity == (Vector2D::<int> { x: 0, y: 0 }),
        after.actors[i].1@.state == ActorState::Idle,
        after.actors[i].1@.collision_mask == game.actors[i].1@.collision_mask,
{
    lemma_rest_is_stable(game.behaviors_of(i), game.actors[i].1@, game.solids(), game.contact(i));
    assert(after.actors[i].1@ == game.ticked(i, idle_input()));
}

/// The state machine. The input rule changes no state. The flight rule
/// leaves the state or makes the actor jump. The ground physics leave the
/// state or make the actor idle, running or jumping; an actor starts to run
/// only from idle. No rule makes an actor fall: only an actor that is
/// falling before a step is falling after it.
pub proof fn lemma_state_machine(
    behavior: Behavior,
    a: ActorModel,
    input: InputSnapshot,
    rects: Seq<Rect<i32>>,
    contact: bool,
)
    ensures
        ({
            let after = behavior.step(a, input, rects, contact).state;
            &&& behavior == Behavior::Input ==> after == a.state
            &&& behavior == Behavior::Flap ==> after == a.state || after == ActorState::Jumping
            &&& after == a.state || after == ActorState::Idle || after == ActorState::Running
                || after == ActorState::Jumping
            &&& after == ActorState::Running ==> a.state == ActorState::Running || a.state
                == ActorState::Idle
            &&& after == ActorState::Falling ==> a.state == ActorState::Falling
        }),
{
    if behavior == Behavior::Player {
        let h = horizontal(a);
        assert(h.state == a.state || (a.state == ActorState::Idle && h.state
            == ActorState::Running));
        let g = grounded(a, rects);
        assert(g.state == h.state || g.state == ActorState::Idle);
        let up = airborne(a, rects);
        assert(up.state == g.state || up.state == ActorState::Jumping);
    }
}

/// Damping decays. With a horizontal acceleration between zero and one,
/// the damping of the ground physics brings a velocity no further from zero
/// than it was, and never across zero.
pub proof fn lemma_damping_decays(velocity: int, factor: int)
    requires
        0 <= factor <= 256,
    ensures
        velocity >= 0 ==> 0 <= lerp_raw(velocity, 0, factor) <= velocity,
        velocity <= 0 ==> velocity <= lerp_raw(velocity, 0, factor) <= 0,
{
    lemma_mul_raw_zero(factor);
    let rest = 256 - factor;
    if velocity >= 0 {
        assert(0 <= velocity * rest <= velocity * 256) by (nonlinear_arith)
            requires
                velocity >= 0,
                0 <= rest <= 256,
        ;
    } else {
        assert(velocity * 256 <= velocity * rest <= 0) by (nonlinear_arith)
            requires
                velocity <= 0,
                0 <= rest <= 256,
        ;
    }
}

} // verus!
