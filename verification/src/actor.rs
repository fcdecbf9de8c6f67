//! The live entity of the simulation: its kinematic state, its state
//! machine, and the directional hit tests against the level's rectangles.
//!
//! All hit tests look at the *predicted* bounds: the collision mask moved by
//! the velocity that the coming integration will apply.

use crate::fixed::{fits, trunc_raw, within, Fixed, STATE_LIMIT, TUNING_LIMIT};
use crate::geometry::{
    contains_point, pixel_rect_to_fixed, pixel_rects_fit, rect_within, touches, vec_add,
    vec_within, Rect, Vector2D,
};
use crate::input::Tri;
use crate::level::StateTags;
use crate::resources::SpriteTag;
use vstd::prelude::*;

verus! {

/// Raw value of the acceleration an actor gets when none is given: 0.2.
pub const DEFAULT_ACCELERATION_RAW: i32 = 51;

/// Raw value of the velocity cap an actor gets when none is given: 1.
pub const DEFAULT_MAX_VELOCITY_RAW: i32 = 256;

/// Raw value of the extent an actor gets when none is given: 1.
pub const DEFAULT_SIZE_RAW: i32 = 256;

/// Raw value of the health an actor starts with: 100.
pub const INITIAL_HEALTH_RAW: i32 = 25600;

/// Raw value of the health that one contact costs: 1.
pub const DAMAGE_RAW: i32 = 256;

/// Number of ticks for which one animation frame is shown.
pub const TICKS_PER_ANIMATION_FRAME: usize = 10;

/// The discrete motion state of an actor.
#[derive(Clone, Copy, PartialEq, Eq, Structural, Hash, Debug)]
pub enum ActorState {
    Idle,
    Jumping,
    Falling,
    Running,
}

/// A one-tick intent: set by the behavior that reads the input, consumed by
/// the behavior that integrates the physics.
#[derive(Clone, Copy, PartialEq, Eq, Structural, Hash, Debug)]
pub enum Action {
    /// No intent.
    NoAction,
    Jump,
    JumpCut,
    Attack,
}

/// One sprite to draw in the current frame.
#[derive(Clone, Copy, PartialEq, Eq, Structural, Hash, Debug)]
pub struct DrawCommand {
    /// The animation to take the sprite from.
    pub tag: SpriteTag,
    /// The index of the animation frame.
    pub animation_frame: usize,
    /// The screen position, in whole pixels.
    pub position: Vector2D<i32>,
    /// Whether the sprite is mirrored horizontally.
    pub hflip: bool,
}

/// The live simulation entity.
#[derive(Clone, Copy, PartialEq, Eq, Debug)]
pub struct Actor {
    /// The animation shown in each state.
    pub tags: StateTags,
    pub velocity: Vector2D<Fixed>,
    pub acceleration: Vector2D<Fixed>,
    pub max_velocity: Vector2D<Fixed>,
    /// Position and hitbox.
    pub collision_mask: Rect<Fixed>,
    /// Displacement of the sprite from the collision mask; rendering only.
    pub sprite_offset: Vector2D<Fixed>,
    pub visible: bool,
    pub state: ActorState,
    pub current_action: Action,
    /// The horizontal input of the current tick.
    pub direction_x: Tri,
    /// The last horizontal direction in which the actor accelerated.
    pub facing: Tri,
    pub health: Fixed,
}

/// The mathematical value of an [`Actor`]: every number is the raw integer
/// of the fixed-point field, without a bound.
pub struct ActorModel {
    pub tags: StateTags,
    pub velocity: Vector2D<int>,
    pub acceleration: Vector2D<int>,
    pub max_velocity: Vector2D<int>,
    pub collision_mask: Rect<int>,
    pub sprite_offset: Vector2D<int>,
    pub visible: bool,
    pub state: ActorState,
    pub current_action: Action,
    pub direction_x: Tri,
    pub facing: Tri,
    pub health: int,
}

impl View for Actor {
    type V = ActorModel;

    open spec fn view(&self) -> ActorModel {
        ActorModel {
            tags: self.tags,
            velocity: self.velocity@,
            acceleration: self.acceleration@,
            max_velocity: self.max_velocity@,
            collision_mask: self.collision_mask@,
            sprite_offset: self.sprite_offset@,
            visible: self.visible,
            state: self.state,
            current_action: self.current_action,
            direction_x: self.direction_x,
            facing: self.facing,
            health: self.health@,
        }
    }
}

/// The bounds an actor is about to occupy: smallest x, smallest y, largest
/// x, largest y of its collision mask moved by its velocity.
pub struct Bounds {
    pub min_x: int,
    pub min_y: int,
    pub max_x: int,
    pub max_y: int,
}

impl ActorModel {
    /// The actor as it is created: at rest, idle, facing nowhere, visible,
    /// with full health. Size, velocity cap and acceleration fall back to
    /// their defaults where none is given.
    pub open spec fn spawn(
        tags: StateTags,
        position: Vector2D<int>,
        maybe_size: Option<Vector2D<int>>,
        offset: Vector2D<int>,
        max_velocity: Option<Vector2D<int>>,
        acceleration: Option<Vector2D<int>>,
    ) -> ActorModel {
        ActorModel {
            tags,
            velocity: Vector2D { x: 0, y: 0 },
            acceleration: match acceleration {
                Some(a) => a,
                None => Vector2D {
                    x: DEFAULT_ACCELERATION_RAW as int,
                    y: DEFAULT_ACCELERATION_RAW as int,
                },
            },
            max_velocity: match max_velocity {
                Some(m) => m,
                None => Vector2D {
                    x: DEFAULT_MAX_VELOCITY_RAW as int,
                    y: DEFAULT_MAX_VELOCITY_RAW as int,
                },
            },
            collision_mask: Rect {
                position,
                size: match maybe_size {
                    Some(s) => s,
                    None => Vector2D { x: DEFAULT_SIZE_RAW as int, y: DEFAULT_SIZE_RAW as int },
                },
            },
            sprite_offset: offset,
            visible: true,
            state: ActorState::Idle,
            current_action: Action::NoAction,
            direction_x: Tri::Zero,
            facing: Tri::Zero,
            health: INITIAL_HEALTH_RAW as int,
        }
    }

    /// The predicted bounds.
    pub open spec fn bounds(self) -> Bounds {
        let x = self.collision_mask.position.x + self.velocity.x;
        let y = self.collision_mask.position.y + self.velocity.y;
        Bounds {
            min_x: x,
            min_y: y,
            max_x: x + self.collision_mask.size.x,
            max_y: y + self.collision_mask.size.y,
        }
    }

    /// Whether the predicted bounds fit the machine word.
    pub open spec fn bounds_fit(self) -> bool {
        let b = self.bounds();
        fits(b.min_x) && fits(b.min_y) && fits(b.max_x) && fits(b.max_y)
    }

    /// Whether the two far corners of the collision mask fit the machine
    /// word.
    pub open spec fn mask_fits(self) -> bool {
        &&& fits(self.collision_mask.position.x + self.collision_mask.size.x)
        &&& fits(self.collision_mask.position.y + self.collision_mask.size.y)
    }

    /// The range on which one step of a behavior is defined: position, size,
    /// velocity, sprite offset and health within [`STATE_LIMIT`],
    /// acceleration and velocity cap within [`TUNING_LIMIT`].
    pub open spec fn in_range(self) -> bool {
        &&& rect_within(self.collision_mask, STATE_LIMIT as int)
        &&& vec_within(self.velocity, STATE_LIMIT as int)
        &&& vec_within(self.sprite_offset, STATE_LIMIT as int)
        &&& within(self.health, STATE_LIMIT as int)
        &&& vec_within(self.acceleration, TUNING_LIMIT as int)
        &&& vec_within(self.max_velocity, TUNING_LIMIT as int)
    }

    /// The actor after its position has moved by its velocity.
    pub open spec fn integrate(self) -> ActorModel {
        ActorModel {
            collision_mask: Rect {
                position: vec_add(self.collision_mask.position, self.velocity),
                size: self.collision_mask.size,
            },
            ..self
        }
    }

    /// Whether the move by the velocity fits the machine word.
    pub open spec fn integrate_fits(self) -> bool {
        &&& fits(self.collision_mask.position.x + self.velocity.x)
        &&& fits(self.collision_mask.position.y + self.velocity.y)
    }

    /// The actor after one contact: its health is lower by one.
    pub open spec fn damaged(self) -> ActorModel {
        ActorModel { health: self.health - DAMAGE_RAW, ..self }
    }

    /// The animation for the current state, if the state has one.
    pub open spec fn current_tag(self) -> Option<SpriteTag> {
        self.tags.tag_for(self.state)
    }

    /// Whether there is anything to draw for the actor: it is visible and
    /// its state has an animation.
    pub open spec fn drawable(self) -> bool {
        self.visible && self.current_tag() is Some
    }

    /// Where the sprite goes on screen, before rounding to whole pixels.
    pub open spec fn screen_position(self, scroll: Vector2D<int>) -> Vector2D<int> {
        vec_add(vec_add(self.collision_mask.position, scroll), self.sprite_offset)
    }

    /// Whether the screen position can be computed in the machine word.
    pub open spec fn screen_position_fits(self, scroll: Vector2D<int>) -> bool {
        let p = vec_add(self.collision_mask.position, scroll);
        &&& fits(p.x)
        &&& fits(p.y)
        &&& fits(p.x + self.sprite_offset.x)
        &&& fits(p.y + self.sprite_offset.y)
    }

    /// What is drawn for the actor in the tick numbered `frame`: nothing if
    /// it is hidden or its state has no animation; else the animation of its
    /// state, at the screen position rounded toward zero, mirrored when the
    /// actor faces the negative direction.
    pub open spec fn draw_command(self, scroll: Vector2D<int>, frame: usize) -> Option<
        DrawCommand,
    > {
        match self.current_tag() {
            Some(tag) if self.visible => Some(
                DrawCommand {
                    tag,
                    animation_frame: (frame / TICKS_PER_ANIMATION_FRAME) as usize,
                    position: Vector2D {
                        x: trunc_raw(self.screen_position(scroll).x) as i32,
                        y: trunc_raw(self.screen_position(scroll).y) as i32,
                    },
                    hflip: self.facing == Tri::Negative,
                },
            ),
            _ => None,
        }
    }
}

/// The `k`-th probe of a sampled edge that starts at `first` and advances by
/// `step`.
pub open spec fn sample(first: int, step: int, k: int) -> int {
    first + k * step
}

/// Whether some probe of a horizontal edge lies in the rectangle. The probes
/// are at height `y`, from `first` on, every `step`, up to and including
/// `last`.
pub open spec fn row_hit(rect: Rect<int>, y: int, first: int, last: int, step: int) -> bool {
    exists|k: int|
        0 <= k && #[trigger] sample(first, step, k) <= last && contains_point(
            rect,
            Vector2D { x: sample(first, step, k), y },
        )
}

/// Whether some probe of a vertical edge lies in the rectangle. The probes
/// are at abscissa `x`, from `first` on, every `step`, strictly before
/// `limit`.
pub open spec fn column_hit(rect: Rect<int>, x: int, first: int, limit: int, step: int) -> bool {
    exists|k: int|
        0 <= k && #[trigger] sample(first, step, k) < limit && contains_point(
            rect,
            Vector2D { x, y: sample(first, step, k) },
        )
}

/// Whether the predicted bottom edge of the actor, inset by `sampling` at
/// both ends and probed every `sampling`, meets the rectangle.
pub open spec fn ground_hit(a: ActorModel, rect: Rect<int>, sampling: int) -> bool {
    let b = a.bounds();
    row_hit(rect, b.max_y, b.min_x + sampling, b.max_x - sampling, sampling)
}

/// Whether the predicted top edge of the actor, inset by `sampling` at both
/// ends and probed every `sampling`, meets the rectangle.
pub open spec fn ceiling_hit(a: ActorModel, rect: Rect<int>, sampling: int) -> bool {
    let b = a.bounds();
    row_hit(rect, b.min_y, b.min_x + sampling, b.max_x - sampling, sampling)
}

/// The abscissa of the predicted side that leads the horizontal motion: the
/// left side for a negative horizontal velocity, else the right side.
pub open spec fn leading_x(a: ActorModel) -> int {
    if a.velocity.x < 0 {
        a.bounds().min_x
    } else {
        a.bounds().max_x
    }
}

/// Whether the predicted leading side of the actor, probed every `sampling`
/// from its top to where its bottom is before the vertical move, meets the
/// rectangle.
pub open spec fn wall_hit(a: ActorModel, rect: Rect<int>, sampling: int) -> bool {
    let b = a.bounds();
    column_hit(rect, leading_x(a), b.min_y, b.max_y - a.velocity.y, sampling)
}

/// Whether the predicted bottom edge meets any of the rectangles.
pub open spec fn hits_ground(a: ActorModel, rects: Seq<Rect<i32>>, sampling: int) -> bool {
    exists|i: int|
        0 <= i < rects.len() && ground_hit(a, pixel_rect_to_fixed(#[trigger] rects[i]), sampling)
}

/// Whether the predicted top edge meets any of the rectangles.
pub open spec fn hits_ceiling(a: ActorModel, rects: Seq<Rect<i32>>, sampling: int) -> bool {
    exists|i: int|
        0 <= i < rects.len() && ceiling_hit(a, pixel_rect_to_fixed(#[trigger] rects[i]), sampling)
}

/// Whether the predicted leading side meets any of the rectangles.
pub open spec fn hits_wall(a: ActorModel, rects: Seq<Rect<i32>>, sampling: int) -> bool {
    exists|i: int|
        0 <= i < rects.len() && wall_hit(a, pixel_rect_to_fixed(#[trigger] rects[i]), sampling)
}

/// Whether the horizontal edges of the actor can be probed in the machine
/// word.
pub open spec fn row_probe_fits(a: ActorModel, sampling: int) -> bool {
    &&& a.bounds_fit()
    &&& fits(a.bounds().min_x + sampling)
    &&& fits(a.bounds().max_x - sampling)
}

/// Whether the leading side of the actor can be probed in the machine word.
pub open spec fn column_probe_fits(a: ActorModel, sampling: int) -> bool {
    &&& a.bounds_fit()
    &&& fits(a.bounds().max_y - a.velocity.y)
    &&& fits(a.bounds().max_y - a.velocity.y + sampling)
}

/// Probes advance: a later probe lies further along the edge.
proof fn lemma_sample_monotone(first: int, step: int, j: int, k: int)
    requires
        step > 0,
        j <= k,
    ensures
        sample(first, step, j) <= sample(first, step, k),
{
    assert(j * step <= k * step) by (nonlinear_arith)
        requires
            step > 0,
            j <= k,
    ;
}

/// The next probe lies one step after the current one.
proof fn lemma_sample_next(first: int, step: int, k: int)
    ensures
        sample(first, step, k + 1) == sample(first, step, k) + step,
        sample(first, step, 0) == first,
{
    assert((k + 1) * step == k * step + step) by (nonlinear_arith);
}

/// Probes a horizontal edge against one rectangle.
fn probe_row(rect: &Rect<Fixed>, y: Fixed, first: Fixed, last: Fixed, step: Fixed) -> (r: bool)
    requires
        step@ > 0,
        fits(last@ + step@),
        fits(rect@.position.x + rect@.size.x),
        fits(rect@.position.y + rect@.size.y),
    ensures
        r == row_hit(rect@, y@, first@, last@, step@),
{
    let mut x = first;
    let ghost mut k: int = 0;
    proof {
        lemma_sample_next(first@, step@, 0);
    }
    while x.at_most(last)
        invariant
            step@ > 0,
            fits(last@ + step@),
            fits(rect@.position.x + rect@.size.x),
            fits(rect@.position.y + rect@.size.y),
            0 <= k,
            x@ == sample(first@, step@, k),
            forall|j: int|
                0 <= j < k ==> !contains_point(
                    rect@,
                    Vector2D { x: #[trigger] sample(first@, step@, j), y: y@ },
                ),
        decreases last@ + step@ - x@,
    {
        if rect.contains_point(Vector2D { x, y }) {
            return true;
        }
        proof {
            lemma_sample_next(first@, step@, k);
            k = k + 1;
        }
        x = x.plus(step);
    }
    proof {
        assert forall|j: int| 0 <= j && #[trigger] sample(first@, step@, j) <= last@ implies j
            < k by {
            if j >= k {
                lemma_sample_monotone(first@, step@, k, j);
            }
        }
    }
    false
}

/// Probes a vertical edge against one rectangle.
fn probe_column(rect: &Rect<Fixed>, x: Fixed, first: Fixed, limit: Fixed, step: Fixed) -> (r:
    bool)
    requires
        step@ > 0,
        fits(limit@ + step@),
        fits(rect@.position.x + rect@.size.x),
        fits(rect@.position.y + rect@.size.y),
    ensures
        r == column_hit(rect@, x@, first@, limit@, step@),
{
    let mut y = first;
    let ghost mut k: int = 0;
    proof {
        lemma_sample_next(first@, step@, 0);
    }
    while y.less_than(limit)
        invariant
            step@ > 0,
            fits(limit@ + step@),
            fits(rect@.position.x + rect@.size.x),
            fits(rect@.position.y + rect@.size.y),
            0 <= k,
            y@ == sample(first@, step@, k),
            forall|j: int|
                0 <= j < k ==> !contains_point(
                    rect@,
                    Vector2D { x: x@, y: #[trigger] sample(first@, step@, j) },
                ),
        decreases limit@ + step@ - y@,
    {
        if rect.contains_point(Vector2D { x, y }) {
            return true;
        }
        proof {
            lemma_sample_next(first@, step@, k);
            k = k + 1;
        }
        y = y.plus(step);
    }
    proof {
        assert forall|j: int| 0 <= j && #[trigger] sample(first@, step@, j) < limit@ implies j
            < k by {
            if j >= k {
                lemma_sample_monotone(first@, step@, k, j);
            }
        }
    }
    false
}

impl Actor {
    /// Creates an actor at rest.
    pub fn new(
        tags: StateTags,
        position: Vector2D<Fixed>,
        maybe_size: Option<Vector2D<Fixed>>,
        offset: Vector2D<Fixed>,
        max_velocity: Option<Vector2D<Fixed>>,
        acceleration: Option<Vector2D<Fixed>>,
    ) -> (r: Actor)
        ensures
            r@ == ActorModel::spawn(
                tags,
                position@,
                match maybe_size {
                    Some(s) => Some(s@),
                    None => None,
                },
                offset@,
                match max_velocity {
                    Some(m) => Some(m@),
                    None => None,
                },
                match acceleration {
                    Some(a) => Some(a@),
                    None => None,
                },
            ),
    {
        let default_acceleration = Fixed::from_raw(DEFAULT_ACCELERATION_RAW);
        Actor {
            tags,
            sprite_offset: offset,
            velocity: Vector2D::<Fixed>::zero(),
            acceleration: match acceleration {
                Some(a) => a,
                None => Vector2D { x: default_acceleration, y: default_acceleration },
            },
            max_velocity: match max_velocity {
                Some(m) => m,
                None => Vector2D { x: Fixed::from_int(1), y: Fixed::from_int(1) },
            },
            collision_mask: match maybe_size {
                Some(size) => Rect { position, size },
                None => Rect {
                    position,
                    size: Vector2D { x: Fixed::from_int(1), y: Fixed::from_int(1) },
                },
            },
            visible: true,
            state: ActorState::Idle,
            current_action: Action::NoAction,
            direction_x: Tri::Zero,
            facing: Tri::Zero,
            health: Fixed::from_int(100),
        }
    }

    /// What to draw for the actor in the tick numbered `frame`, with the
    /// camera at `scroll`.
    pub fn render(&self, scroll: Vector2D<Fixed>, frame: usize) -> (r: Option<DrawCommand>)
        requires
            self@.drawable() ==> self@.screen_position_fits(scroll@),
        ensures
            r == self@.draw_command(scroll@, frame),
    {
        if !self.visible {
            return None;
        }
        match self.tags.get(self.state) {
            Some(tag) => {
                let position = self.collision_mask.position.plus(scroll).plus(
                    self.sprite_offset,
                ).trunc();
                Some(
                    DrawCommand {
                        tag,
                        animation_frame: frame / TICKS_PER_ANIMATION_FRAME,
                        position,
                        hflip: self.facing == Tri::Negative,
                    },
                )
            },
            None => None,
        }
    }

    /// The predicted bounds: smallest x, smallest y, largest x, largest y of
    /// the collision mask moved by the velocity.
    pub fn aabb(&self) -> (r: (Fixed, Fixed, Fixed, Fixed))
        requires
            self@.bounds_fit(),
        ensures
            r.0@ == self@.bounds().min_x,
            r.1@ == self@.bounds().min_y,
            r.2@ == self@.bounds().max_x,
            r.3@ == self@.bounds().max_y,
    {
        let corner = self.collision_mask.position.plus(self.velocity);
        let size = self.collision_mask.size;
        (corner.x, corner.y, corner.x.plus(size.x), corner.y.plus(size.y))
    }

    /// Whether the predicted bottom edge meets one of the rectangles.
    pub fn hit_ground(&self, collision_rects: &[Rect<i32>], sampling: Fixed) -> (r: bool)
        requires
            sampling@ > 0,
            row_probe_fits(self@, sampling@),
            pixel_rects_fit(collision_rects@),
        ensures
            r == hits_ground(self@, collision_rects@, sampling@),
    {
        let (min_x, _, max_x, max_y) = self.aabb();
        let first = min_x.plus(sampling);
        let last = max_x.minus(sampling);
        let mut i: usize = 0;
        while i < collision_rects.len()
            invariant
                i <= collision_rects.len(),
                sampling@ > 0,
                pixel_rects_fit(collision_rects@),
                first@ == self@.bounds().min_x + sampling@,
                last@ == self@.bounds().max_x - sampling@,
                max_y@ == self@.bounds().max_y,
                fits(last@ + sampling@),
                forall|j: int|
                    0 <= j < i ==> !ground_hit(
                        self@,
                        pixel_rect_to_fixed(#[trigger] collision_rects@[j]),
                        sampling@,
                    ),
            decreases collision_rects.len() - i,
        {
            let rect = collision_rects[i].to_fixed();
            if probe_row(&rect, max_y, first, last, sampling) {
                return true;
            }
            i += 1;
        }
        false
    }

    /// Whether the predicted top edge meets one of the rectangles.
    pub fn hit_ceiling(&self, collision_rects: &[Rect<i32>], sampling: Fixed) -> (r: bool)
        requires
            sampling@ > 0,
            row_probe_fits(self@, sampling@),
            pixel_rects_fit(collision_rects@),
        ensures
            r == hits_ceiling(self@, collision_rects@, sampling@),
    {
        let (min_x, min_y, max_x, _) = self.aabb();
        let first = min_x.plus(sampling);
        let last = max_x.minus(sampling);
        let mut i: usize = 0;
        while i < collision_rects.len()
            invariant
                i <= collision_rects.len(),
                sampling@ > 0,
                pixel_rects_fit(collision_rects@),
                first@ == self@.bounds().min_x + sampling@,
                last@ == self@.bounds().max_x - sampling@,
                min_y@ == self@.bounds().min_y,
                fits(last@ + sampling@),
                forall|j: int|
                    0 <= j < i ==> !ceiling_hit(
                        self@,
                        pixel_rect_to_fixed(#[trigger] collision_rects@[j]),
                        sampling@,
                    ),
            decreases collision_rects.len() - i,
        {
            let rect = collision_rects[i].to_fixed();
            if probe_row(&rect, min_y, first, last, sampling) {
                return true;
            }
            i += 1;
        }
        false
    }

    /// Whether the predicted side that leads the horizontal motion meets one
    /// of the rectangles.
    pub fn hit_wall(&self, collision_rects: &[Rect<i32>], sampling: Fixed) -> (r: bool)
        requires
            sampling@ > 0,
            column_probe_fits(self@, sampling@),
            pixel_rects_fit(collision_rects@),
        ensures
            r == hits_wall(self@, collision_rects@, sampling@),
    {
        let (min_x, min_y, max_x, max_y) = self.aabb();
        let limit = max_y.minus(self.velocity.y);
        let x = if self.velocity.x.is_negative() {
            min_x
        } else {
            max_x
        };
        let mut i: usize = 0;
        while i < collision_rects.len()
            invariant
                i <= collision_rects.len(),
                sampling@ > 0,
                pixel_rects_fit(collision_rects@),
                x@ == leading_x(self@),
                min_y@ == self@.bounds().min_y,
                limit@ == self@.bounds().max_y - self@.velocity.y,
                fits(limit@ + sampling@),
                forall|j: int|
                    0 <= j < i ==> !wall_hit(
                        self@,
                        pixel_rect_to_fixed(#[trigger] collision_rects@[j]),
                        sampling@,
                    ),
            decreases collision_rects.len() - i,
        {
            let rect = collision_rects[i].to_fixed();
            if probe_column(&rect, x, min_y, limit, sampling) {
                return true;
            }
            i += 1;
        }
        false
    }

    /// Whether the collision mask overlaps `rect` in an area.
    pub fn touches(&self, rect: Rect<Fixed>) -> (r: bool)
        requires
            self@.mask_fits(),
            fits(rect@.position.x + rect@.size.x),
            fits(rect@.position.y + rect@.size.y),
        ensures
            r == touches(self@.collision_mask, rect@),
    {
        self.collision_mask.touches(rect)
    }

    /// Takes one unit of health away.
    pub fn take_damage(&mut self)
        requires
            fits(old(self)@.health - DAMAGE_RAW),
        ensures
            final(self)@ == old(self)@.damaged(),
    {
        self.health = self.health.minus(Fixed::from_int(1));
    }

    /// Moves the collision mask by the velocity.
    pub fn integrate(&mut self)
        requires
            old(self)@.integrate_fits(),
        ensures
            final(self)@ == old(self)@.integrate(),
    {
        self.collision_mask.position = self.collision_mask.position.plus(self.velocity);
    }

    /// Whether the two far corners of the collision mask fit the machine
    /// word.
    pub fn mask_fits(&self) -> (r: bool)
        ensures
            r == self@.mask_fits(),
    {
        self.collision_mask.position.x.raw.checked_add(self.collision_mask.size.x.raw).is_some()
            && self.collision_mask.position.y.raw.checked_add(
            self.collision_mask.size.y.raw,
        ).is_some()
    }

    /// Whether the screen position can be computed in the machine word.
    pub fn screen_position_fits(&self, scroll: Vector2D<Fixed>) -> (r: bool)
        ensures
            r == self@.screen_position_fits(scroll@),
    {
        let x = self.collision_mask.position.x.raw.checked_add(scroll.x.raw);
        let y = self.collision_mask.position.y.raw.checked_add(scroll.y.raw);
        match (x, y) {
            (Some(x), Some(y)) => x.checked_add(self.sprite_offset.x.raw).is_some()
                && y.checked_add(self.sprite_offset.y.raw).is_some(),
            _ => false,
        }
    }

    /// Whether the actor lies in the range on which one step of a behavior
    /// is defined.
    pub fn in_range(&self) -> (r: bool)
        ensures
            r == self@.in_range(),
    {
        self.collision_mask.is_within(STATE_LIMIT) && self.velocity.is_within(STATE_LIMIT)
            && self.sprite_offset.is_within(STATE_LIMIT) && self.health.is_within(STATE_LIMIT)
            && self.acceleration.is_within(TUNING_LIMIT) && self.max_velocity.is_within(
            TUNING_LIMIT,
        )
    }
}

} // verus!
