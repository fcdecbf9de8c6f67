//! The update rules that are attached to actors, and what one step of each
//! does to an actor.
//!
//! A behavior owns no data: all state lives on the actor. The behaviors of
//! an actor run in the order in which they are attached, so the rule that
//! reads the input comes before the rule that integrates the physics.

use crate::actor::{
    hits_ceiling, hits_ground, hits_wall, Action, Actor, ActorModel, ActorState,
};
use crate::close_to_zero::{near_zero, CloseToZero};
use crate::contact::{any_enemy_touches, key_ids, touching, touching_fits};
use crate::fixed::{
    lemma_mul_raw_bound, lemma_mul_raw_zero, within, Fixed, STATE_LIMIT, TUNING_LIMIT,
};
use crate::geometry::{pixel_rects_fit, Rect, Vector2D};
use crate::input::{InputSnapshot, Tri};
use crate::level::Level;
use crate::registry::{index_of, lookup, ActorKey, ActorRegistry};
use crate::sfx::SoundEffect;
use crate::util::{lerp, lerp_raw};
use vstd::prelude::*;

verus! {

/// Raw distance between the probes of a wall check: 3.
pub const WALL_SAMPLING_RAW: i32 = 768;

/// Raw distance between the probes of a ground or ceiling check: 0.8.
pub const EDGE_SAMPLING_RAW: i32 = 204;

/// Raw margin below which a velocity counts as rest: 0.02.
pub const REST_MARGIN_RAW: i32 = 5;

/// A per-actor update rule.
#[derive(Clone, Copy, PartialEq, Eq, Structural, Hash, Debug)]
pub enum Behavior {
    /// Reads the controls into the actor.
    Input,
    /// Ground physics: horizontal acceleration and damping, walls, ground
    /// and gravity, jump, ceiling, coming to rest, contact damage.
    Player,
    /// Flight: the jump intent becomes a wing beat.
    Flap,
}

/// The actor with another horizontal velocity.
pub open spec fn with_velocity_x(a: ActorModel, vx: int) -> ActorModel {
    ActorModel { velocity: Vector2D { x: vx, y: a.velocity.y }, ..a }
}

/// The actor with another vertical velocity.
pub open spec fn with_velocity_y(a: ActorModel, vy: int) -> ActorModel {
    ActorModel { velocity: Vector2D { x: a.velocity.x, y: vy }, ..a }
}

/// What the input rule does: the horizontal direction is copied; a fresh
/// press of the jump button while not jumping sets the jump intent; a fresh
/// release while jumping sets the intent to cut the jump.
pub open spec fn input_step(a: ActorModel, input: InputSnapshot) -> ActorModel {
    let a = ActorModel { direction_x: input.x_tri, ..a };
    let a = if a.state != ActorState::Jumping && input.jump_just_pressed {
        ActorModel { current_action: Action::Jump, ..a }
    } else {
        a
    };
    if a.state == ActorState::Jumping && input.jump_just_released {
        ActorModel { current_action: Action::JumpCut, ..a }
    } else {
        a
    }
}

/// What the flight rule does: a jump intent makes the actor jump, with its
/// vertical velocity lowered by the velocity cap; the intent is cleared in
/// any case.
pub open spec fn flap_step(a: ActorModel) -> ActorModel {
    let a = if a.current_action == Action::Jump {
        ActorModel {
            state: ActorState::Jumping,
            ..with_velocity_y(a, a.velocity.y - a.max_velocity.y)
        }
    } else {
        a
    };
    ActorModel { current_action: Action::NoAction, ..a }
}

/// The actor pushed to the horizontal velocity `vx` in the direction of its
/// input: an idle actor starts to run, and the actor faces the direction.
pub open spec fn pushed(a: ActorModel, vx: int) -> ActorModel {
    ActorModel {
        state: if a.state == ActorState::Idle {
            ActorState::Running
        } else {
            a.state
        },
        facing: a.direction_x,
        ..with_velocity_x(a, vx)
    }
}

/// Horizontal acceleration: while the input points in a direction and the
/// velocity has not reached the cap in that direction, the velocity changes
/// by the acceleration.
pub open spec fn accelerate(a: ActorModel) -> ActorModel {
    match a.direction_x {
        Tri::Negative => if a.velocity.x > -a.max_velocity.x {
            pushed(a, a.velocity.x - a.acceleration.x)
        } else {
            a
        },
        Tri::Positive => if a.velocity.x < a.max_velocity.x {
            pushed(a, a.velocity.x + a.acceleration.x)
        } else {
            a
        },
        Tri::Zero => a,
    }
}

/// Damping: where the horizontal velocity is still `before`, it is
/// interpolated toward zero by the horizontal acceleration as factor.
pub open spec fn damp(a: ActorModel, before: int) -> ActorModel {
    if before == a.velocity.x {
        with_velocity_x(a, lerp_raw(a.velocity.x, 0, a.acceleration.x))
    } else {
        a
    }
}

/// Acceleration, then damping of a velocity that the acceleration left as
/// it was.
pub open spec fn horizontal(a: ActorModel) -> ActorModel {
    damp(accelerate(a), a.velocity.x)
}

/// A wall ahead zeroes the horizontal velocity.
pub open spec fn stop_at_wall(a: ActorModel, rects: Seq<Rect<i32>>) -> ActorModel {
    if hits_wall(a, rects, WALL_SAMPLING_RAW as int) {
        with_velocity_x(a, 0)
    } else {
        a
    }
}

/// Ground below zeroes the vertical velocity and ends a jump; without
/// ground the vertical acceleration is added to the vertical velocity.
pub open spec fn land_or_fall(a: ActorModel, rects: Seq<Rect<i32>>) -> ActorModel {
    if hits_ground(a, rects, EDGE_SAMPLING_RAW as int) {
        ActorModel {
            state: if a.state == ActorState::Jumping {
                ActorState::Idle
            } else {
                a.state
            },
            ..with_velocity_y(a, 0)
        }
    } else {
        with_velocity_y(a, a.velocity.y + a.acceleration.y)
    }
}

/// Whether a jump starts: the intent is there and the actor does not move
/// vertically.
pub open spec fn jump_triggered(a: ActorModel) -> bool {
    a.current_action == Action::Jump && a.velocity.y == 0
}

/// A triggered jump puts the actor in the jumping state, with the upward
/// velocity of the vertical velocity cap.
pub open spec fn start_jump(a: ActorModel) -> ActorModel {
    if jump_triggered(a) {
        ActorModel { state: ActorState::Jumping, ..with_velocity_y(a, -a.max_velocity.y) }
    } else {
        a
    }
}

/// The intent to cut a jump zeroes a vertical velocity.
pub open spec fn cut_jump(a: ActorModel) -> ActorModel {
    if a.current_action == Action::JumpCut && a.velocity.y != 0 {
        with_velocity_y(a, 0)
    } else {
        a
    }
}

/// A ceiling above zeroes the vertical velocity.
pub open spec fn stop_at_ceiling(a: ActorModel, rects: Seq<Rect<i32>>) -> ActorModel {
    if hits_ceiling(a, rects, EDGE_SAMPLING_RAW as int) {
        with_velocity_y(a, 0)
    } else {
        a
    }
}

/// Whether the velocity is within the rest margin of zero on both axes.
pub open spec fn almost_at_rest(a: ActorModel) -> bool {
    near_zero(a.velocity.x, REST_MARGIN_RAW as int) && near_zero(
        a.velocity.y,
        REST_MARGIN_RAW as int,
    )
}

/// A velocity that is almost zero becomes zero, and the actor idle.
pub open spec fn settle(a: ActorModel) -> ActorModel {
    if almost_at_rest(a) {
        ActorModel { velocity: Vector2D { x: 0, y: 0 }, state: ActorState::Idle, ..a }
    } else {
        a
    }
}

/// The intent of the tick is consumed.
pub open spec fn clear_action(a: ActorModel) -> ActorModel {
    ActorModel { current_action: Action::NoAction, ..a }
}

/// The actor as the physics leave it before the jump is decided: after the
/// horizontal part, the wall check and the ground check.
pub open spec fn grounded(a: ActorModel, rects: Seq<Rect<i32>>) -> ActorModel {
    land_or_fall(stop_at_wall(horizontal(a), rects), rects)
}

/// The actor as the physics leave it before it may come to rest: after the
/// jump, the jump cut and the ceiling check.
pub open spec fn airborne(a: ActorModel, rects: Seq<Rect<i32>>) -> ActorModel {
    stop_at_ceiling(cut_jump(start_jump(grounded(a, rects))), rects)
}

/// What the ground-physics rule does, in this order: horizontal
/// acceleration and damping, wall, ground or gravity, jump, jump cut,
/// ceiling, coming to rest, clearing the intent, and one unit of damage if
/// `contact` holds.
pub open spec fn player_step(a: ActorModel, rects: Seq<Rect<i32>>, contact: bool) -> ActorModel {
    let a = clear_action(settle(airborne(a, rects)));
    if contact {
        a.damaged()
    } else {
        a
    }
}

impl Behavior {
    /// The actor after one step of the behavior. `rects` are the solid
    /// rectangles of the level; `contact` says whether the actor is the
    /// player and overlaps a tracked enemy.
    pub open spec fn step(
        self,
        a: ActorModel,
        input: InputSnapshot,
        rects: Seq<Rect<i32>>,
        contact: bool,
    ) -> ActorModel {
        match self {
            Behavior::Input => input_step(a, input),
            Behavior::Flap => flap_step(a),
            Behavior::Player => player_step(a, rects, contact),
        }
    }

    /// The sound that one step of the behavior asks for: the wing beat when
    /// the flight rule finds a jump intent, the jump sound when the
    /// ground-physics rule starts a jump.
    pub open spec fn sound(self, a: ActorModel, rects: Seq<Rect<i32>>) -> Option<SoundEffect> {
        match self {
            Behavior::Input => None,
            Behavior::Flap => if a.current_action == Action::Jump {
                Some(SoundEffect::BatFlap)
            } else {
                None
            },
            Behavior::Player => if jump_triggered(grounded(a, rects)) {
                Some(SoundEffect::Jump)
            } else {
                None
            },
        }
    }
}

/// The actor after the behaviors of the sequence have run on it in order.
pub open spec fn run(
    behaviors: Seq<Behavior>,
    a: ActorModel,
    input: InputSnapshot,
    rects: Seq<Rect<i32>>,
    contact: bool,
) -> ActorModel
    decreases behaviors.len(),
{
    if behaviors.len() == 0 {
        a
    } else {
        behaviors.last().step(
            run(behaviors.drop_last(), a, input, rects, contact),
            input,
            rects,
            contact,
        )
    }
}

/// The sounds that the behaviors of the sequence ask for, in order.
pub open spec fn sounds(
    behaviors: Seq<Behavior>,
    a: ActorModel,
    input: InputSnapshot,
    rects: Seq<Rect<i32>>,
    contact: bool,
) -> Seq<SoundEffect>
    decreases behaviors.len(),
{
    if behaviors.len() == 0 {
        Seq::empty()
    } else {
        let before = sounds(behaviors.drop_last(), a, input, rects, contact);
        match behaviors.last().sound(run(behaviors.drop_last(), a, input, rects, contact), rects) {
            Some(sound) => before.push(sound),
            None => before,
        }
    }
}

/// Whether the actor is in range at the start of every step of the
/// sequence.
pub open spec fn run_in_range(
    behaviors: Seq<Behavior>,
    a: ActorModel,
    input: InputSnapshot,
    rects: Seq<Rect<i32>>,
    contact: bool,
) -> bool
    decreases behaviors.len(),
{
    behaviors.len() == 0 || (run_in_range(behaviors.drop_last(), a, input, rects, contact) && run(
        behaviors.drop_last(),
        a,
        input,
        rects,
        contact,
    ).in_range())
}

/// One tick of one actor: its behaviors in order, then the move by the
/// velocity they leave.
pub open spec fn tick(
    behaviors: Seq<Behavior>,
    a: ActorModel,
    input: InputSnapshot,
    rects: Seq<Rect<i32>>,
    contact: bool,
) -> ActorModel {
    run(behaviors, a, input, rects, contact).integrate()
}

/// Whether one tick of the actor stays in the machine word: every step
/// starts in range, and the final move fits.
pub open spec fn tick_fits(
    behaviors: Seq<Behavior>,
    a: ActorModel,
    input: InputSnapshot,
    rects: Seq<Rect<i32>>,
    contact: bool,
) -> bool {
    run_in_range(behaviors, a, input, rects, contact) && run(
        behaviors,
        a,
        input,
        rects,
        contact,
    ).integrate_fits()
}

/// The range in which an actor stays during a step of the ground physics
/// that starts in range: the horizontal velocity may have grown by the
/// damping factor, the vertical velocity by an acceleration.
spec fn mid_step(a: ActorModel) -> bool {
    &&& crate::geometry::rect_within(a.collision_mask, STATE_LIMIT as int)
    &&& within(a.velocity.x, 0x4200_0000)
    &&& within(a.velocity.y, 2 * STATE_LIMIT)
    &&& within(a.health, STATE_LIMIT as int)
    &&& crate::geometry::vec_within(a.acceleration, TUNING_LIMIT as int)
    &&& crate::geometry::vec_within(a.max_velocity, TUNING_LIMIT as int)
}

/// The input rule.
fn read_input(actor: &mut Actor, input: &InputSnapshot)
    ensures
        final(actor)@ == input_step(old(actor)@, *input),
{
    actor.direction_x = input.x_tri;
    if actor.state != ActorState::Jumping && input.jump_just_pressed {
        actor.current_action = Action::Jump;
    }
    if actor.state == ActorState::Jumping && input.jump_just_released {
        actor.current_action = Action::JumpCut;
    }
}

/// The flight rule.
fn flap(actor: &mut Actor) -> (sound: Option<SoundEffect>)
    requires
        old(actor)@.in_range(),
    ensures
        final(actor)@ == flap_step(old(actor)@),
        sound == Behavior::Flap.sound(old(actor)@, Seq::empty()),
{
    let mut sound = None;
    if actor.current_action == Action::Jump {
        actor.state = ActorState::Jumping;
        actor.velocity.y = actor.velocity.y.minus(actor.max_velocity.y);
        sound = Some(SoundEffect::BatFlap);
    }
    actor.current_action = Action::NoAction;
    sound
}

/// Horizontal acceleration and damping.
fn move_horizontally(actor: &mut Actor)
    requires
        old(actor)@.in_range(),
    ensures
        final(actor)@ == horizontal(old(actor)@),
        mid_step(final(actor)@),
{
    let vx = actor.velocity.x;
    match actor.direction_x {
        Tri::Negative => {
            if actor.velocity.x.greater_than(actor.max_velocity.x.negated()) {
                actor.velocity.x = actor.velocity.x.minus(actor.acceleration.x);
                if actor.state == ActorState::Idle {
                    actor.state = ActorState::Running;
                }
                actor.facing = actor.direction_x;
            }
        },
        Tri::Positive => {
            if actor.velocity.x.less_than(actor.max_velocity.x) {
                actor.velocity.x = actor.velocity.x.plus(actor.acceleration.x);
                if actor.state == ActorState::Idle {
                    actor.state = ActorState::Running;
                }
                actor.facing = actor.direction_x;
            }
        },
        Tri::Zero => {},
    }
    assert(actor@ == accelerate(old(actor)@));
    if vx.raw == actor.velocity.x.raw {
        proof {
            lemma_mul_raw_bound(
                vx@,
                256 - actor@.acceleration.x,
                STATE_LIMIT as int,
                TUNING_LIMIT as int + 256,
            );
            lemma_mul_raw_zero(actor@.acceleration.x);
        }
        actor.velocity.x = lerp(actor.velocity.x, Fixed::zero(), actor.acceleration.x);
    }
}

/// Wall check.
fn check_wall(actor: &mut Actor, rects: &[Rect<i32>])
    requires
        mid_step(old(actor)@),
        pixel_rects_fit(rects@),
    ensures
        final(actor)@ == stop_at_wall(old(actor)@, rects@),
        mid_step(final(actor)@),
{
    if actor.hit_wall(rects, Fixed::from_raw(WALL_SAMPLING_RAW)) {
        actor.velocity.x = Fixed::zero();
    }
}

/// Ground check and gravity.
fn check_ground(actor: &mut Actor, rects: &[Rect<i32>])
    requires
        mid_step(old(actor)@),
        within(old(actor)@.velocity.y, STATE_LIMIT as int),
        pixel_rects_fit(rects@),
    ensures
        final(actor)@ == land_or_fall(old(actor)@, rects@),
        mid_step(final(actor)@),
{
    if actor.hit_ground(rects, Fixed::from_raw(EDGE_SAMPLING_RAW)) {
        actor.velocity.y = Fixed::zero();
        if actor.state == ActorState::Jumping {
            actor.state = ActorState::Idle;
        }
    } else {
        actor.velocity.y = actor.velocity.y.plus(actor.acceleration.y);
    }
}

/// Jump and jump cut.
fn jump(actor: &mut Actor) -> (sound: Option<SoundEffect>)
    requires
        mid_step(old(actor)@),
    ensures
        final(actor)@ == cut_jump(start_jump(old(actor)@)),
        sound == if jump_triggered(old(actor)@) {
            Some(SoundEffect::Jump)
        } else {
            None::<SoundEffect>
        },
        mid_step(final(actor)@),
{
    let mut sound = None;
    if actor.current_action == Action::Jump && actor.velocity.y.raw == 0 {
        actor.state = ActorState::Jumping;
        actor.velocity.y = actor.velocity.y.minus(actor.max_velocity.y);
        sound = Some(SoundEffect::Jump);
    }
    if actor.current_action == Action::JumpCut && actor.velocity.y.raw != 0 {
        actor.velocity.y = Fixed::zero();
    }
    sound
}

/// Ceiling check, coming to rest, clearing the intent.
fn finish(actor: &mut Actor, rects: &[Rect<i32>])
    requires
        mid_step(old(actor)@),
        pixel_rects_fit(rects@),
    ensures
        final(actor)@ == clear_action(settle(stop_at_ceiling(old(actor)@, rects@))),
        final(actor)@.health == old(actor)@.health,
{
    if actor.hit_ceiling(rects, Fixed::from_raw(EDGE_SAMPLING_RAW)) {
        actor.velocity.y = Fixed::zero();
    }
    if actor.velocity.close_to_zero(Fixed::from_raw(REST_MARGIN_RAW)) {
        actor.velocity = Vector2D::<Fixed>::zero();
        actor.state = ActorState::Idle;
    }
    actor.current_action = Action::NoAction;
}

impl Behavior {
    /// Runs one step of the behavior on `actor` and returns the sound it
    /// asks for. `rects` are the solid rectangles of the level; `contact`
    /// says whether the actor is the player and overlaps a tracked enemy.
    pub fn apply(
        &self,
        actor: &mut Actor,
        input: &InputSnapshot,
        rects: &[Rect<i32>],
        contact: bool,
    ) -> (sound: Option<SoundEffect>)
        requires
            old(actor)@.in_range(),
            pixel_rects_fit(rects@),
        ensures
            final(actor)@ == self.step(old(actor)@, *input, rects@, contact),
            sound == self.sound(old(actor)@, rects@),
    {
        match self {
            Behavior::Input => {
                read_input(actor, input);
                None
            },
            Behavior::Flap => flap(actor),
            Behavior::Player => {
                move_horizontally(actor);
                check_wall(actor, rects);
                check_ground(actor, rects);
                let sound = jump(actor);
                finish(actor, rects);
                if contact {
                    actor.take_damage();
                }
                sound
            },
        }
    }
}

/// What came of running the behaviors of an actor for one tick.
pub struct TickOutcome {
    /// The actor after its behaviors and the move by its velocity.
    pub actor: Actor,
    /// The sounds that the behaviors asked for, in order.
    pub sounds: Vec<SoundEffect>,
}

/// Runs one tick of one actor: its behaviors in order, then the move by the
/// velocity. Returns `None`, and does nothing, where the tick would leave the
/// machine word.
pub fn tick_actor(
    behaviors: &[Behavior],
    actor: &Actor,
    input: &InputSnapshot,
    rects: &[Rect<i32>],
    contact: bool,
) -> (r: Option<TickOutcome>)
    requires
        pixel_rects_fit(rects@),
    ensures
        r is Some <==> tick_fits(behaviors@, actor@, *input, rects@, contact),
        r matches Some(outcome) ==> {
            &&& outcome.actor@ == tick(behaviors@, actor@, *input, rects@, contact)
            &&& outcome.sounds@ == sounds(behaviors@, actor@, *input, rects@, contact)
        },
{
    let mut current = *actor;
    let mut emitted: Vec<SoundEffect> = Vec::new();
    let mut i: usize = 0;
    assert(behaviors@.take(0) =~= Seq::<Behavior>::empty());
    while i < behaviors.len()
        invariant
            i <= behaviors.len(),
            pixel_rects_fit(rects@),
            run_in_range(behaviors@.take(i as int), actor@, *input, rects@, contact),
            current@ == run(behaviors@.take(i as int), actor@, *input, rects@, contact),
            emitted@ == sounds(behaviors@.take(i as int), actor@, *input, rects@, contact),
        decreases behaviors.len() - i,
    {
        proof {
            assert(behaviors@.take(i + 1).drop_last() =~= behaviors@.take(i as int));
            assert(behaviors@.take(i + 1).last() == behaviors@[i as int]);
        }
        if !current.in_range() {
            proof {
                if run_in_range(behaviors@, actor@, *input, rects@, contact) {
                    lemma_run_in_range_prefix(
                        behaviors@,
                        i + 1,
                        actor@,
                        *input,
                        rects@,
                        contact,
                    );
                }
            }
            return None;
        }
        let sound = behaviors[i].apply(&mut current, input, rects, contact);
        match sound {
            Some(effect) => emitted.push(effect),
            None => {},
        }
        i += 1;
    }
    assert(behaviors@.take(behaviors@.len() as int) =~= behaviors@);
    let fits_x = current.collision_mask.position.x.raw.checked_add(current.velocity.x.raw);
    let fits_y = current.collision_mask.position.y.raw.checked_add(current.velocity.y.raw);
    if fits_x.is_none() || fits_y.is_none() {
        return None;
    }
    current.integrate();
    Some(TickOutcome { actor: current, sounds: emitted })
}

/// A sequence that runs in range has every prefix run in range.
proof fn lemma_run_in_range_prefix(
    behaviors: Seq<Behavior>,
    n: int,
    a: ActorModel,
    input: InputSnapshot,
    rects: Seq<Rect<i32>>,
    contact: bool,
)
    requires
        0 <= n <= behaviors.len(),
        run_in_range(behaviors, a, input, rects, contact),
    ensures
        run_in_range(behaviors.take(n), a, input, rects, contact),
    decreases behaviors.len(),
{
    if n == behaviors.len() {
        assert(behaviors.take(n) =~= behaviors);
    } else {
        assert(behaviors.drop_last().take(n) =~= behaviors.take(n));
        lemma_run_in_range_prefix(behaviors.drop_last(), n, a, input, rects, contact);
    }
}

impl Behavior {
    /// Whether a step of the behavior on the actor under `current` counts
    /// as one with contact: the behavior is the ground physics, the actor is
    /// the player, and an enemy overlaps it.
    pub open spec fn contact_in(
        self,
        items: Seq<(u64, Actor)>,
        current: u64,
        player: u64,
        enemies: Seq<u64>,
    ) -> bool {
        self == Behavior::Player && current == player && (lookup(items, current) matches Some(me)
            && touching(items, enemies, me))
    }

    /// Whether a step of the behavior on the actor under `current` stays in
    /// the machine word: there is no such actor, or it is in range, the
    /// solid rectangles can be written in fixed point, and contact can be
    /// decided where it matters.
    pub open spec fn update_fits(
        self,
        items: Seq<(u64, Actor)>,
        current: u64,
        player: u64,
        enemies: Seq<u64>,
        rects: Seq<Rect<i32>>,
    ) -> bool {
        lookup(items, current) matches Some(me) ==> {
            &&& me@.in_range()
            &&& pixel_rects_fit(rects)
            &&& self == Behavior::Player && current == player ==> touching_fits(items, enemies, me)
        }
    }

    /// Runs one step of the behavior on the actor that the registry holds
    /// under `current_key`, and returns the sound it asks for. Without such
    /// an actor nothing happens. No other actor changes, and no actor
    /// moves.
    pub fn update(
        &self,
        current_key: ActorKey,
        player_key: ActorKey,
        enemies_keys: &[ActorKey],
        actors: &mut ActorRegistry,
        input: &InputSnapshot,
        level: &Level,
    ) -> (sound: Option<SoundEffect>)
        requires
            old(actors).wf(),
            self.update_fits(
                old(actors)@,
                current_key@,
                player_key@,
                key_ids(enemies_keys@),
                level.solids(),
            ),
        ensures
            final(actors).wf(),
            final(actors)@.len() == old(actors)@.len(),
            match index_of(old(actors)@, current_key@) {
                Some(at) => {
                    &&& final(actors)@[at].0 == current_key@
                    &&& final(actors)@[at].1@ == self.step(
                        old(actors)@[at].1@,
                        *input,
                        level.solids(),
                        self.contact_in(
                            old(actors)@,
                            current_key@,
                            player_key@,
                            key_ids(enemies_keys@),
                        ),
                    )
                    &&& forall|i: int|
                        0 <= i < old(actors)@.len() && i != at ==> #[trigger] final(actors)@[i]
                            == old(actors)@[i]
                    &&& sound == self.sound(old(actors)@[at].1@, level.solids())
                },
                None => final(actors)@ == old(actors)@ && sound is None,
            },
    {
        let mut actor = match actors.get(current_key) {
            Some(actor) => actor,
            None => {
                return None;
            },
        };
        let is_player = current_key.same(&player_key);
        let contact = match self {
            Behavior::Player => {
                if is_player {
                    match any_enemy_touches(actors, enemies_keys, &actor) {
                        Some(found) => found,
                        None => {
                            assert(false);
                            false
                        },
                    }
                } else {
                    false
                }
            },
            _ => false,
        };
        let solids = level.get_solid_collision_rects();
        let sound = self.apply(&mut actor, input, solids.as_slice(), contact);
        actors.set(current_key, actor);
        sound
    }
}

} // verus!
