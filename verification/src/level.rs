//! The static description of a level: its solid and door rectangles and the
//! entities it starts with.

use crate::actor::ActorState;
use crate::behaviors::Behavior;
use crate::geometry::{pixels_fit, Rect, Vector2D};
use crate::resources::SpriteTag;
use vstd::prelude::*;

verus! {

/// The animation of each motion state of an entity; a state may have none.
#[derive(Clone, Copy, PartialEq, Eq, Structural, Hash, Debug)]
pub struct StateTags {
    pub idle: Option<SpriteTag>,
    pub jumping: Option<SpriteTag>,
    pub falling: Option<SpriteTag>,
    pub running: Option<SpriteTag>,
}

impl StateTags {
    /// The animation for `state`, if it has one.
    pub open spec fn tag_for(self, state: ActorState) -> Option<SpriteTag> {
        match state {
            ActorState::Idle => self.idle,
            ActorState::Jumping => self.jumping,
            ActorState::Falling => self.falling,
            ActorState::Running => self.running,
        }
    }

    /// The animation for `state`, if it has one.
    pub fn get(&self, state: ActorState) -> (r: Option<SpriteTag>)
        ensures
            r == self.tag_for(state),
    {
        match state {
            ActorState::Idle => self.idle,
            ActorState::Jumping => self.jumping,
            ActorState::Falling => self.falling,
            ActorState::Running => self.running,
        }
    }
}

/// The kinds of entity that a level can place.
#[derive(Clone, Copy, PartialEq, Eq, Structural, Hash, Debug)]
pub enum EntityType {
    Player,
    Bat,
    Door,
}

impl EntityType {
    /// The animations of the kind: the player has one for standing, running
    /// and jumping; the bat and the door have one, shown while idle.
    pub open spec fn spec_tags(self) -> StateTags {
        match self {
            EntityType::Player => StateTags {
                idle: Some(SpriteTag::WIdle),
                jumping: Some(SpriteTag::WJump),
                falling: None,
                running: Some(SpriteTag::WRun),
            },
            EntityType::Bat => StateTags {
                idle: Some(SpriteTag::Bat),
                jumping: None,
                falling: None,
                running: None,
            },
            EntityType::Door => StateTags {
                idle: Some(SpriteTag::Door),
                jumping: None,
                falling: None,
                running: None,
            },
        }
    }

    /// The animations of the kind, by motion state.
    pub fn tags(&self) -> (r: StateTags)
        ensures
            r == self.spec_tags(),
    {
        let mut tags = StateTags { idle: None, jumping: None, falling: None, running: None };
        match self {
            EntityType::Player => {
                tags.idle = Some(SpriteTag::WIdle);
                tags.running = Some(SpriteTag::WRun);
                tags.jumping = Some(SpriteTag::WJump);
            },
            EntityType::Bat => {
                tags.idle = Some(SpriteTag::Bat);
            },
            EntityType::Door => {
                tags.idle = Some(SpriteTag::Door);
            },
        }
        tags
    }
}

/// One entity that a level starts with: its kind, its position in whole
/// pixels, its hitbox size if it has one of its own, its behaviors in the
/// order in which they run, and the offset of its sprite.
pub struct Entity(
    pub EntityType,
    pub Vector2D<i32>,
    pub Option<Vector2D<i32>>,
    pub Vec<Behavior>,
    pub Vector2D<i32>,
);

/// A rectangle of the level's collision layer, in whole pixels.
#[derive(Clone, Copy, PartialEq, Eq, Structural, Hash, Debug)]
pub enum CollisionRect {
    /// Blocks motion.
    Solid(Rect<i32>),
    /// Blocks nothing; marks a door.
    Door(Rect<i32>),
}

/// A level as the authoring step hands it over.
pub struct Level {
    /// Width in tiles.
    pub width: u32,
    /// Height in tiles.
    pub height: u32,
    pub starting_positions: Vec<Entity>,
    pub name: String,
    pub collision_rects: Vec<CollisionRect>,
}

/// The solid rectangles among `rects`, in their order.
pub open spec fn solid_rects(rects: Seq<CollisionRect>) -> Seq<Rect<i32>>
    decreases rects.len(),
{
    if rects.len() == 0 {
        Seq::empty()
    } else {
        match rects.last() {
            CollisionRect::Solid(r) => solid_rects(rects.drop_last()).push(r),
            CollisionRect::Door(_) => solid_rects(rects.drop_last()),
        }
    }
}

/// The door rectangles among `rects`, in their order.
pub open spec fn door_rects(rects: Seq<CollisionRect>) -> Seq<Rect<i32>>
    decreases rects.len(),
{
    if rects.len() == 0 {
        Seq::empty()
    } else {
        match rects.last() {
            CollisionRect::Door(r) => door_rects(rects.drop_last()).push(r),
            CollisionRect::Solid(_) => door_rects(rects.drop_last()),
        }
    }
}

impl Entity {
    /// Whether position, size and sprite offset of the entity can be
    /// written in fixed point.
    pub open spec fn fits(&self) -> bool {
        &&& pixels_fit(self.1)
        &&& self.2 matches Some(size) ==> pixels_fit(size)
        &&& pixels_fit(self.4)
    }
}

impl Level {
    /// Puts a level together.
    pub fn new(
        width: u32,
        height: u32,
        starting_positions: Vec<Entity>,
        name: String,
        collision_rects: Vec<CollisionRect>,
    ) -> (r: Level)
        ensures
            r.width == width,
            r.height == height,
            r.starting_positions == starting_positions,
            r.name == name,
            r.collision_rects == collision_rects,
    {
        Level { width, height, starting_positions, name, collision_rects }
    }

    /// The solid rectangles of the level, in their order.
    pub open spec fn solids(&self) -> Seq<Rect<i32>> {
        solid_rects(self.collision_rects@)
    }

    /// Whether every entity of the level can be written in fixed point.
    pub open spec fn entities_fit(&self) -> bool {
        forall|i: int|
            0 <= i < self.starting_positions@.len() ==> (
            #[trigger] self.starting_positions@[i]).fits()
    }

    /// Whether every entity of the level can be written in fixed point:
    /// the condition under which the level can be loaded.
    pub fn can_spawn(&self) -> (r: bool)
        ensures
            r == self.entities_fit(),
    {
        let mut i: usize = 0;
        while i < self.starting_positions.len()
            invariant
                i <= self.starting_positions.len(),
                forall|j: int| 0 <= j < i ==> (#[trigger] self.starting_positions@[j]).fits(),
            decreases self.starting_positions.len() - i,
        {
            let entity = &self.starting_positions[i];
            let size_fits = match entity.2 {
                Some(size) => size.fits(),
                None => true,
            };
            if !(entity.1.fits() && size_fits && entity.4.fits()) {
                assert(!self.starting_positions@[i as int].fits());
                return false;
            }
            i += 1;
        }
        true
    }

    /// The rectangles that block motion.
    pub fn get_solid_collision_rects(&self) -> (r: Vec<Rect<i32>>)
        ensures
            r@ == solid_rects(self.collision_rects@),
    {
        let mut out: Vec<Rect<i32>> = Vec::new();
        let mut i: usize = 0;
        assert(self.collision_rects@.take(0) =~= Seq::<CollisionRect>::empty());
        while i < self.collision_rects.len()
            invariant
                i <= self.collision_rects.len(),
                out@ == solid_rects(self.collision_rects@.take(i as int)),
            decreases self.collision_rects.len() - i,
        {
            proof {
                assert(self.collision_rects@.take(i + 1).drop_last() =~= self.collision_rects@.take(
                    i as int,
                ));
                assert(self.collision_rects@.take(i + 1).last() == self.collision_rects@[i as int]);
            }
            match self.collision_rects[i] {
                CollisionRect::Solid(rect) => out.push(rect),
                CollisionRect::Door(_) => {},
            }
            i += 1;
        }
        assert(self.collision_rects@.take(self.collision_rects@.len() as int)
            =~= self.collision_rects@);
        out
    }

    /// The rectangles that mark doors.
    pub fn get_door_collision_rects(&self) -> (r: Vec<Rect<i32>>)
        ensures
            r@ == door_rects(self.collision_rects@),
    {
        let mut out: Vec<Rect<i32>> = Vec::new();
        let mut i: usize = 0;
        assert(self.collision_rects@.take(0) =~= Seq::<CollisionRect>::empty());
        while i < self.collision_rects.len()
            invariant
                i <= self.collision_rects.len(),
                out@ == door_rects(self.collision_rects@.take(i as int)),
            decreases self.collision_rects.len() - i,
        {
            proof {
                assert(self.collision_rects@.take(i + 1).drop_last() =~= self.collision_rects@.take(
                    i as int,
                ));
                assert(self.collision_rects@.take(i + 1).last() == self.collision_rects@[i as int]);
            }
            match self.collision_rects[i] {
                CollisionRect::Door(rect) => out.push(rect),
                CollisionRect::Solid(_) => {},
            }
            i += 1;
        }
        assert(self.collision_rects@.take(self.collision_rects@.len() as int)
            =~= self.collision_rects@);
        out
    }

    /// The level with the given number in a table of levels.
    pub fn get_level(levels: &[Level], level_number: usize) -> (r: &Level)
        requires
            level_number < levels@.len(),
        ensures
            *r == levels@[level_number as int],
    {
        &levels[level_number]
    }
}

} // verus!
