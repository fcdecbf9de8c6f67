//! The game: the actor registry, the behaviors attached to each actor, the
//! player and the enemies among them, and the tick that advances them all.
//!
//! A tick has two phases. First every actor runs its behaviors, in the
//! order of the registry; no behavior moves an actor, so every behavior
//! sees every actor where the previous tick left it. Then every actor moves
//! by its velocity, and the camera follows the player.

use crate::actor::{Actor, ActorModel, DrawCommand};
use crate::behaviors::{sounds, tick, tick_actor, tick_fits, Behavior, TickOutcome};
use crate::fixed::{fits, Fixed};
use crate::contact::{any_enemy_touches, key_ids, touching, touching_fits};
use crate::geometry::{pixel_rects_fit, pixels_to_fixed, Rect, Vector2D};
use crate::input::InputSnapshot;
use crate::level::{Entity, EntityType, Level};
use crate::registry::{
    index_of, is_null_id, lemma_lookup_unique, lookup, slot_of, slots_distinct, ActorKey,
    ActorRegistry, BehaviorTable,
};
use crate::sfx::SoundEffect;
use crate::util::{lerp, lerp_fits, lerp_raw};
use vstd::prelude::*;

verus! {

/// Half the width of the screen, in pixels.
pub const HALF_WIDTH: i32 = 120;

/// Half the height of the screen, in pixels.
pub const HALF_HEIGHT: i32 = 80;

/// Raw value of half the width of the screen.
pub const HALF_WIDTH_RAW: i32 = 30720;

/// Raw value of half the height of the screen.
pub const HALF_HEIGHT_RAW: i32 = 20480;

/// Raw value of the share of the way to its target that the camera covers
/// in one tick: 0.05.
pub const CAMERA_FACTOR_RAW: i32 = 12;

/// Raw value of the horizontal velocity cap of the player and of the bat:
/// 1.4.
pub const RUN_SPEED_RAW: i32 = 358;

/// Raw value of the vertical velocity cap of the player, its jump impulse:
/// 7.
pub const PLAYER_JUMP_RAW: i32 = 1792;

/// Raw value of the acceleration of the player on both axes, and of the bat
/// horizontally: 0.6.
pub const PLAYER_ACCELERATION_RAW: i32 = 153;

/// Raw value of the vertical velocity cap of the bat, its wing beat: 0.06.
pub const BAT_FLAP_RAW: i32 = 15;

/// Raw value of the vertical acceleration of the bat: 0.008.
pub const BAT_GRAVITY_RAW: i32 = 2;

/// Number of null keys that the list of enemies starts with.
pub const INITIAL_ENEMY_SLOTS: usize = 100;

/// Where the camera goes on one axis: a share of the way from `scroll` to
/// the place that centers `position`, but never beyond `bound`.
pub open spec fn follow(scroll: int, bound: int, position: int) -> int {
    let target = lerp_raw(scroll, bound - position, CAMERA_FACTOR_RAW as int);
    if target < bound {
        target
    } else {
        bound
    }
}

/// Whether the camera can follow on one axis within the machine word.
pub open spec fn follow_fits(scroll: int, bound: int, position: int) -> bool {
    fits(bound - position) && lerp_fits(scroll, bound - position, CAMERA_FACTOR_RAW as int)
}

/// Where the camera goes when the player is at `position`.
pub open spec fn camera(scroll: Vector2D<int>, position: Vector2D<int>) -> Vector2D<int> {
    Vector2D {
        x: follow(scroll.x, HALF_WIDTH_RAW as int, position.x),
        y: follow(scroll.y, HALF_HEIGHT_RAW as int, position.y),
    }
}

/// Whether the camera can follow the player within the machine word.
pub open spec fn camera_fits(scroll: Vector2D<int>, position: Vector2D<int>) -> bool {
    follow_fits(scroll.x, HALF_WIDTH_RAW as int, position.x) && follow_fits(
        scroll.y,
        HALF_HEIGHT_RAW as int,
        position.y,
    )
}

/// The behaviors attached to `id`: none where the table has no list for it.
pub open spec fn behaviors_for(table: Map<u64, Seq<Behavior>>, id: u64) -> Seq<Behavior> {
    if table.dom().contains(id) {
        table[id]
    } else {
        Seq::empty()
    }
}

/// The actor that an entity of a level is spawned as. The player and the
/// bat have their own velocity cap and acceleration; every other kind gets
/// the defaults.
pub open spec fn spawn_of(entity: Entity) -> ActorModel {
    ActorModel::spawn(
        entity.0.spec_tags(),
        pixels_to_fixed(entity.1),
        match entity.2 {
            Some(size) => Some(pixels_to_fixed(size)),
            None => None,
        },
        pixels_to_fixed(entity.4),
        match entity.0 {
            EntityType::Player => Some(
                Vector2D { x: RUN_SPEED_RAW as int, y: PLAYER_JUMP_RAW as int },
            ),
            EntityType::Bat => Some(Vector2D { x: RUN_SPEED_RAW as int, y: BAT_FLAP_RAW as int }),
            EntityType::Door => None,
        },
        match entity.0 {
            EntityType::Player => Some(
                Vector2D {
                    x: PLAYER_ACCELERATION_RAW as int,
                    y: PLAYER_ACCELERATION_RAW as int,
                },
            ),
            EntityType::Bat => Some(
                Vector2D { x: PLAYER_ACCELERATION_RAW as int, y: BAT_GRAVITY_RAW as int },
            ),
            EntityType::Door => None,
        },
    )
}

/// The mathematical value of a [`Game`].
pub struct GameModel {
    pub level: Level,
    /// Each key with its actor, in the order of the registry.
    pub actors: Seq<(u64, Actor)>,
    /// The behaviors of each key that has any.
    pub behaviors: Map<u64, Seq<Behavior>>,
    pub player: u64,
    pub enemies: Seq<u64>,
    pub frame: usize,
    pub scroll_pos: Vector2D<int>,
}

impl GameModel {
    /// What holds of every game: the keys of its registry name pairwise
    /// different slots, none is null, and behaviors are attached to keys of
    /// the registry only.
    pub open spec fn wf(self) -> bool {
        &&& slots_distinct(self.actors)
        &&& forall|i: int| 0 <= i < self.actors.len() ==> !is_null_id((#[trigger] self.actors[i]).0)
        &&& forall|id: u64| #[trigger]
            self.behaviors.dom().contains(id) ==> lookup(self.actors, id) is Some
    }

    /// The solid rectangles of the level.
    pub open spec fn solids(self) -> Seq<Rect<i32>> {
        self.level.solids()
    }

    /// Whether the `i`-th actor is the player and overlaps an enemy.
    pub open spec fn contact(self, i: int) -> bool {
        self.actors[i].0 == self.player && touching(self.actors, self.enemies, self.actors[i].1)
    }

    /// The behaviors of the `i`-th actor.
    pub open spec fn behaviors_of(self, i: int) -> Seq<Behavior> {
        behaviors_for(self.behaviors, self.actors[i].0)
    }

    /// The `i`-th actor after one tick.
    pub open spec fn ticked(self, i: int, input: InputSnapshot) -> ActorModel {
        tick(self.behaviors_of(i), self.actors[i].1@, input, self.solids(), self.contact(i))
    }

    /// The sounds that the `i`-th actor asks for in one tick.
    pub open spec fn sounds_of(self, i: int, input: InputSnapshot) -> Seq<SoundEffect> {
        sounds(self.behaviors_of(i), self.actors[i].1@, input, self.solids(), self.contact(i))
    }

    /// Whether the tick of the `i`-th actor stays in the machine word.
    pub open spec fn actor_fits(self, i: int, input: InputSnapshot) -> bool {
        &&& self.actors[i].0 == self.player ==> touching_fits(
            self.actors,
            self.enemies,
            self.actors[i].1,
        )
        &&& tick_fits(
            self.behaviors_of(i),
            self.actors[i].1@,
            input,
            self.solids(),
            self.contact(i),
        )
    }

    /// Whether the ticks of the first `n` actors stay in the machine word.
    pub open spec fn actors_fit(self, n: int, input: InputSnapshot) -> bool {
        forall|i: int| 0 <= i < n ==> #[trigger] self.actor_fits(i, input)
    }

    /// The sounds that the first `n` actors ask for in one tick, in the
    /// order of the registry.
    pub open spec fn sounds_through(self, n: int, input: InputSnapshot) -> Seq<SoundEffect>
        decreases n,
    {
        if n <= 0 {
            Seq::empty()
        } else {
            self.sounds_through(n - 1, input) + self.sounds_of(n - 1, input)
        }
    }

    /// Where the camera is after the tick: it follows the player to where
    /// the tick takes it, and stays where it is without a player.
    pub open spec fn camera_after(self, input: InputSnapshot) -> Vector2D<int> {
        match index_of(self.actors, self.player) {
            Some(i) => camera(self.scroll_pos, self.ticked(i, input).collision_mask.position),
            None => self.scroll_pos,
        }
    }

    /// Whether the camera can follow within the machine word.
    pub open spec fn camera_after_fits(self, input: InputSnapshot) -> bool {
        match index_of(self.actors, self.player) {
            Some(i) => camera_fits(self.scroll_pos, self.ticked(i, input).collision_mask.position),
            None => true,
        }
    }

    /// Whether one tick of the game stays in the machine word, and its
    /// level geometry can be written in fixed point.
    pub open spec fn can_tick(self, input: InputSnapshot) -> bool {
        &&& pixel_rects_fit(self.solids())
        &&& self.actors_fit(self.actors.len() as int, input)
        &&& self.camera_after_fits(input)
    }

    /// The entities that the level starts with.
    pub open spec fn entities(self) -> Seq<Entity> {
        self.level.starting_positions@
    }

    /// The player after the first `n` entities of the level were spawned
    /// under `keys`: the last player among them, else the player as before.
    pub open spec fn player_after(self, keys: Seq<u64>, n: int) -> u64
        decreases n,
    {
        if n <= 0 {
            self.player
        } else if self.entities()[n - 1].0 == EntityType::Player {
            keys[n - 1]
        } else {
            self.player_after(keys, n - 1)
        }
    }

    /// The enemies after the first `n` entities of the level were spawned
    /// under `keys`: the enemies as before, then the bats among them, in
    /// their order.
    pub open spec fn enemies_after(self, keys: Seq<u64>, n: int) -> Seq<u64>
        decreases n,
    {
        if n <= 0 {
            self.enemies
        } else if self.entities()[n - 1].0 == EntityType::Bat {
            self.enemies_after(keys, n - 1).push(keys[n - 1])
        } else {
            self.enemies_after(keys, n - 1)
        }
    }

    /// Whether `after` is this game with the first `n` entities of its
    /// level spawned under `keys`: the keys are new, not null and pairwise
    /// different; each holds the actor of its entity, with the behaviors of
    /// the entity; every other key holds what it held; the player and the
    /// enemies are those after the spawns.
    pub open spec fn loaded(self, after: GameModel, keys: Seq<u64>, n: int) -> bool {
        &&& keys.len() == n
        &&& after.level == self.level
        &&& after.frame == self.frame
        &&& after.scroll_pos == self.scroll_pos
        &&& after.actors.len() == self.actors.len() + n
        &&& forall|i: int|
            0 <= i < n ==> lookup(self.actors, #[trigger] keys[i]) is None && !is_null_id(keys[i])
        &&& forall|i: int, j: int| 0 <= i < j < n ==> keys[i] != keys[j]
        &&& forall|i: int|
            0 <= i < n ==> (lookup(after.actors, #[trigger] keys[i]) matches Some(actor) && actor@
                == spawn_of(self.entities()[i])) && after.behaviors.dom().contains(keys[i])
                && after.behaviors[keys[i]] == self.entities()[i].3@
        &&& forall|id: u64|
            !keys.contains(id) ==> #[trigger] lookup(after.actors, id) == lookup(self.actors, id)
        &&& forall|id: u64|
            !keys.contains(id) ==> (#[trigger] after.behaviors.dom().contains(id)
                == self.behaviors.dom().contains(id)) && (self.behaviors.dom().contains(id)
                ==> after.behaviors[id] == self.behaviors[id])
        &&& after.player == self.player_after(keys, n)
        &&& after.enemies == self.enemies_after(keys, n)
    }

    /// What is drawn for the first `n` actors when there is room for all:
    /// one command for each actor that has anything to draw, in the order
    /// of the registry.
    pub open spec fn draws_through(self, n: int) -> Seq<DrawCommand>
        decreases n,
    {
        if n <= 0 {
            Seq::empty()
        } else {
            match self.actors[n - 1].1@.draw_command(self.scroll_pos, self.frame) {
                Some(command) => self.draws_through(n - 1).push(command),
                None => self.draws_through(n - 1),
            }
        }
    }

    /// What is drawn in a frame with room for `slots` sprites: the first
    /// `slots` commands, the others being dropped.
    pub open spec fn draws(self, slots: usize) -> Seq<DrawCommand> {
        let all = self.draws_through(self.actors.len() as int);
        if slots < all.len() {
            all.take(slots as int)
        } else {
            all
        }
    }

    /// Whether the screen position of every actor that has anything to draw
    /// can be computed in the machine word.
    pub open spec fn can_draw(self) -> bool {
        forall|i: int|
            0 <= i < self.actors.len() && (#[trigger] self.actors[i]).1@.drawable()
                ==> self.actors[i].1@.screen_position_fits(self.scroll_pos)
    }

    /// Whether `after` is this game one tick later: every actor has run its
    /// behaviors and moved, under its key and in its place; the frame
    /// counter has advanced, wrapping; the camera has followed; nothing
    /// else has changed.
    pub open spec fn ticks_to(self, after: GameModel, input: InputSnapshot) -> bool {
        &&& after.level == self.level
        &&& after.behaviors == self.behaviors
        &&& after.player == self.player
        &&& after.enemies == self.enemies
        &&& after.actors.len() == self.actors.len()
        &&& forall|i: int|
            0 <= i < self.actors.len() ==> (#[trigger] after.actors[i]).0 == self.actors[i].0
                && after.actors[i].1@ == self.ticked(i, input)
        &&& after.frame == if self.frame == usize::MAX {
            0usize
        } else {
            (self.frame + 1) as usize
        }
        &&& after.scroll_pos == self.camera_after(input)
    }
}

/// The game.
pub struct Game<'a> {
    level: &'a Level,
    actors: ActorRegistry,
    behaviors: BehaviorTable,
    player: ActorKey,
    enemies: Vec<ActorKey>,
    frame: usize,
    /// Where the camera is.
    pub scroll_pos: Vector2D<Fixed>,
}

impl<'a> View for Game<'a> {
    type V = GameModel;

    closed spec fn view(&self) -> GameModel {
        GameModel {
            level: *self.level,
            actors: self.actors@,
            behaviors: self.behaviors@,
            player: self.player@,
            enemies: key_ids(self.enemies@),
            frame: self.frame,
            scroll_pos: self.scroll_pos@,
        }
    }
}

/// What one tick will do, worked out before anything is changed.
struct Plan {
    /// The keys of the registry, in its order.
    keys: Vec<ActorKey>,
    /// The actors after the tick, in the order of the registry.
    actors: Vec<Actor>,
    /// The sounds of the tick.
    sounds: Vec<SoundEffect>,
    /// Where the camera goes.
    scroll_pos: Vector2D<Fixed>,
}

/// Where the camera goes on one axis; nothing where the machine word would
/// overflow on the way.
fn follow_axis(scroll: Fixed, bound: Fixed, position: Fixed) -> (r: Option<Fixed>)
    ensures
        r is Some <==> follow_fits(scroll@, bound@, position@),
        r matches Some(target) ==> target@ == follow(scroll@, bound@, position@),
{
    let factor = Fixed::from_raw(CAMERA_FACTOR_RAW);
    let rest = Fixed::from_raw(crate::fixed::ONE_RAW - CAMERA_FACTOR_RAW);
    match bound.raw.checked_sub(position.raw) {
        None => None,
        Some(offset) => {
            let goal = Fixed::from_raw(offset);
            proof {
                crate::fixed::lemma_mul_raw_bound(scroll@, rest@, 0x8000_0000, 244);
                crate::fixed::lemma_mul_raw_bound(goal@, factor@, 0x8000_0000, 12);
            }
            let kept = scroll.times(rest);
            let pulled = goal.times(factor);
            match kept.raw.checked_add(pulled.raw) {
                None => None,
                Some(_) => {
                    let target = lerp(scroll, goal, factor);
                    if target.less_than(bound) {
                        Some(target)
                    } else {
                        Some(bound)
                    }
                },
            }
        },
    }
}

/// Where the camera goes when the player is at `position`; nothing where
/// the machine word would overflow on the way.
fn follow_player(scroll: Vector2D<Fixed>, position: Vector2D<Fixed>) -> (r: Option<
    Vector2D<Fixed>,
>)
    ensures
        r is Some <==> camera_fits(scroll@, position@),
        r matches Some(target) ==> target@ == camera(scroll@, position@),
{
    let x = follow_axis(scroll.x, Fixed::from_int(HALF_WIDTH), position.x);
    let y = follow_axis(scroll.y, Fixed::from_int(HALF_HEIGHT), position.y);
    match (x, y) {
        (Some(x), Some(y)) => Some(Vector2D { x, y }),
        _ => None,
    }
}

impl<'a> Game<'a> {
    /// A game for the level, with no actors yet.
    pub fn new(level: &'a Level) -> (r: Game<'a>)
        ensures
            r@.wf(),
            r@.level == *level,
            r@.actors.len() == 0,
            r@.behaviors == Map::<u64, Seq<Behavior>>::empty(),
            is_null_id(r@.player),
            r@.enemies.len() == INITIAL_ENEMY_SLOTS,
            forall|i: int| 0 <= i < r@.enemies.len() ==> is_null_id(#[trigger] r@.enemies[i]),
            r@.frame == 0,
            r@.scroll_pos == (Vector2D::<int> { x: 0, y: 0 }),
    {
        let mut enemies: Vec<ActorKey> = Vec::new();
        let mut i: usize = 0;
        while i < INITIAL_ENEMY_SLOTS
            invariant
                i <= INITIAL_ENEMY_SLOTS,
                enemies@.len() == i,
                forall|j: int| 0 <= j < i ==> is_null_id((#[trigger] enemies@[j])@),
            decreases INITIAL_ENEMY_SLOTS - i,
        {
            enemies.push(ActorKey::null());
            i += 1;
        }
        Game {
            level,
            actors: ActorRegistry::new(),
            behaviors: BehaviorTable::new(),
            player: ActorKey::null(),
            enemies,
            frame: 0,
            scroll_pos: Vector2D::<Fixed>::zero(),
        }
    }

    /// The key of the player; the null key before a level is loaded.
    pub fn player(&self) -> (r: ActorKey)
        ensures
            r@ == self@.player,
    {
        self.player
    }

    /// The keys of the enemies that the player is checked against.
    pub fn enemies(&self) -> (r: &Vec<ActorKey>)
        ensures
            key_ids(r@) == self@.enemies,
    {
        &self.enemies
    }

    /// The number of ticks so far, wrapping.
    pub fn frame(&self) -> (r: usize)
        ensures
            r == self@.frame,
    {
        self.frame
    }

    /// The keys of the actors, in the order of the registry.
    pub fn actor_keys(&self) -> (r: Vec<ActorKey>)
        requires
            self@.wf(),
        ensures
            r@.len() == self@.actors.len(),
            forall|i: int| 0 <= i < r@.len() ==> (#[trigger] r@[i])@ == self@.actors[i].0,
    {
        self.actors.keys()
    }

    /// The actor under the key, if there is one.
    pub fn actor(&self, key: ActorKey) -> (r: Option<Actor>)
        requires
            self@.wf(),
        ensures
            r == lookup(self@.actors, key@),
    {
        self.actors.get(key)
    }

    /// The behaviors attached to the key, in the order in which they run.
    pub fn behaviors(&self, key: ActorKey) -> (r: Vec<Behavior>)
        ensures
            r@ == behaviors_for(self@.behaviors, key@),
    {
        match self.behaviors.get(key) {
            Some(list) => list.clone(),
            None => Vec::new(),
        }
    }

    /// Replaces the actor under a key of the registry.
    pub fn set_actor(&mut self, key: ActorKey, actor: Actor)
        requires
            old(self)@.wf(),
            lookup(old(self)@.actors, key@) is Some,
        ensures
            final(self)@.wf(),
            final(self)@ == (GameModel {
                actors: old(self)@.actors.update(
                    index_of(old(self)@.actors, key@).unwrap(),
                    (key@, actor),
                ),
                ..old(self)@
            }),
            lookup(final(self)@.actors, key@) == Some(actor),
    {
        proof {
            lemma_lookup_unique(self.actors@, key@);
        }
        let ghost before = self.actors@;
        self.actors.set(key, actor);
        proof {
            let i = index_of(before, key@).unwrap();
            lemma_lookup_unique(self.actors@, key@);
            assert(self.actors@[i] == (key@, actor));
            assert forall|id: u64| #[trigger]
                self.behaviors@.dom().contains(id) implies lookup(self.actors@, id) is Some by {
                lemma_lookup_unique(before, id);
                lemma_lookup_unique(self.actors@, id);
                let j = index_of(before, id).unwrap();
                assert(self.actors@[j].0 == before[j].0);
            }
        }
    }
}

impl<'a> Game<'a> {
    /// Works out the tick of the actor under a key of the registry; nothing
    /// where it would leave the machine word.
    fn plan_actor(&self, key: ActorKey, solids: &[Rect<i32>], input: &InputSnapshot) -> (r: Option<
        TickOutcome,
    >)
        requires
            self@.wf(),
            solids@ == self@.solids(),
            pixel_rects_fit(solids@),
            index_of(self@.actors, key@) is Some,
        ensures
            r is Some <==> self@.actor_fits(index_of(self@.actors, key@).unwrap(), *input),
            r matches Some(outcome) ==> {
                &&& outcome.actor@ == self@.ticked(index_of(self@.actors, key@).unwrap(), *input)
                &&& outcome.sounds@ == self@.sounds_of(
                    index_of(self@.actors, key@).unwrap(),
                    *input,
                )
            },
    {
        let ghost i = index_of(self@.actors, key@).unwrap();
        let actor = match self.actors.get(key) {
            Some(actor) => actor,
            None => {
                assert(false);
                return None;
            },
        };
        assert(actor == self@.actors[i].1);
        assert(self@.actors[i].0 == key@);
        let contact = if key.same(&self.player) {
            match any_enemy_touches(&self.actors, self.enemies.as_slice(), &actor) {
                Some(found) => found,
                None => {
                    return None;
                },
            }
        } else {
            false
        };
        assert(contact == self@.contact(i));
        match self.behaviors.get(key) {
            Some(list) => tick_actor(list.as_slice(), &actor, input, solids, contact),
            None => {
                let none: Vec<Behavior> = Vec::new();
                tick_actor(none.as_slice(), &actor, input, solids, contact)
            },
        }
    }

    /// The place of the player among the keys of the registry, if it is
    /// there.
    fn place_of_player(&self, keys: &Vec<ActorKey>) -> (r: Option<usize>)
        requires
            self@.wf(),
            keys@.len() == self@.actors.len(),
            forall|j: int| 0 <= j < keys@.len() ==> (#[trigger] keys@[j])@ == self@.actors[j].0,
        ensures
            match r {
                Some(place) => index_of(self@.actors, self@.player) == Some(place as int),
                None => index_of(self@.actors, self@.player) is None,
            },
    {
        proof {
            lemma_lookup_unique(self@.actors, self@.player);
        }
        let mut j: usize = 0;
        while j < keys.len()
            invariant
                j <= keys.len(),
                keys@.len() == self@.actors.len(),
                forall|k: int| 0 <= k < keys@.len() ==> (#[trigger] keys@[k])@ == self@.actors[k].0,
                forall|k: int| 0 <= k < j ==> (#[trigger] self@.actors[k]).0 != self@.player,
                forall|k: int|
                    0 <= k < self@.actors.len() && (#[trigger] self@.actors[k]).0 == self@.player
                        ==> index_of(self@.actors, self@.player) == Some(k),
            decreases keys.len() - j,
        {
            if keys[j].same(&self.player) {
                assert(self@.actors[j as int].0 == self@.player);
                return Some(j);
            }
            j += 1;
        }
        None
    }

    /// Works out one tick without changing anything; nothing where the tick
    /// would leave the machine word.
    fn plan(&self, input: &InputSnapshot) -> (r: Option<Plan>)
        requires
            self@.wf(),
        ensures
            r is Some <==> self@.can_tick(*input),
            r matches Some(plan) ==> {
                &&& plan.keys@.len() == self@.actors.len()
                &&& plan.actors@.len() == self@.actors.len()
                &&& forall|i: int|
                    0 <= i < self@.actors.len() ==> (#[trigger] plan.keys@[i])@
                        == self@.actors[i].0
                &&& forall|i: int|
                    0 <= i < self@.actors.len() ==> (#[trigger] plan.actors@[i])@ == self@.ticked(
                        i,
                        *input,
                    )
                &&& plan.sounds@ == self@.sounds_through(self@.actors.len() as int, *input)
                &&& plan.scroll_pos@ == self@.camera_after(*input)
            },
    {
        let solids = self.level.get_solid_collision_rects();
        if !crate::geometry::rects_fit(solids.as_slice()) {
            return None;
        }
        let keys = self.actors.keys();
        let mut actors: Vec<Actor> = Vec::new();
        let mut emitted: Vec<SoundEffect> = Vec::new();
        let mut i: usize = 0;
        while i < keys.len()
            invariant
                i <= keys.len(),
                self@.wf(),
                solids@ == self@.solids(),
                pixel_rects_fit(solids@),
                keys@.len() == self@.actors.len(),
                forall|j: int|
                    0 <= j < keys@.len() ==> index_of(self@.actors, (#[trigger] keys@[j])@) == Some(
                        j,
                    ),
                actors@.len() == i,
                self@.actors_fit(i as int, *input),
                forall|j: int| 0 <= j < i ==> (#[trigger] actors@[j])@ == self@.ticked(j, *input),
                emitted@ == self@.sounds_through(i as int, *input),
            decreases keys.len() - i,
        {
            match self.plan_actor(keys[i], solids.as_slice(), input) {
                None => {
                    assert(!self@.actor_fits(i as int, *input));
                    return None;
                },
                Some(outcome) => {
                    actors.push(outcome.actor);
                    let mut heard = outcome.sounds;
                    emitted.append(&mut heard);
                },
            }
            i += 1;
        }
        let scroll_pos = match self.place_of_player(&keys) {
            Some(place) => {
                match follow_player(self.scroll_pos, actors[place].collision_mask.position) {
                    Some(target) => target,
                    None => {
                        return None;
                    },
                }
            },
            None => self.scroll_pos,
        };
        Some(Plan { keys, actors, sounds: emitted, scroll_pos })
    }

    /// Whether one tick stays in the machine word: the condition under
    /// which [`Game::update`] may be called.
    pub fn can_update(&self, input: &InputSnapshot) -> (r: bool)
        requires
            self@.wf(),
        ensures
            r == self@.can_tick(*input),
    {
        self.plan(input).is_some()
    }

    /// Advances the game by one tick where the tick stays in the machine
    /// word, and returns the sounds that the behaviors ask for, in the order
    /// of the registry. Returns nothing, and changes nothing, where it does
    /// not.
    pub fn try_update(&mut self, input: &InputSnapshot) -> (r: Option<Vec<SoundEffect>>)
        requires
            old(self)@.wf(),
        ensures
            final(self)@.wf(),
            r is Some <==> old(self)@.can_tick(*input),
            r matches Some(heard) ==> old(self)@.ticks_to(final(self)@, *input) && heard@ == old(
                self,
            )@.sounds_through(old(self)@.actors.len() as int, *input),
            r is None ==> final(self)@ == old(self)@,
    {
        let plan = match self.plan(input) {
            Some(plan) => plan,
            None => {
                return None;
            },
        };
        let ghost before = self@;
        let mut i: usize = 0;
        while i < plan.keys.len()
            invariant
                i <= plan.keys.len(),
                before.wf(),
                plan.keys@.len() == before.actors.len(),
                plan.actors@.len() == before.actors.len(),
                forall|j: int|
                    0 <= j < before.actors.len() ==> (#[trigger] plan.keys@[j])@
                        == before.actors[j].0,
                self.actors.wf(),
                self.actors@.len() == before.actors.len(),
                forall|j: int|
                    0 <= j < before.actors.len() ==> (#[trigger] self.actors@[j]).0
                        == before.actors[j].0,
                forall|j: int| 0 <= j < i ==> (#[trigger] self.actors@[j]).1 == plan.actors@[j],
                forall|j: int|
                    i <= j < before.actors.len() ==> (#[trigger] self.actors@[j]).1
                        == before.actors[j].1,
                self@ == (GameModel { actors: self.actors@, ..before }),
            decreases plan.keys.len() - i,
        {
            let key = plan.keys[i];
            proof {
                lemma_lookup_unique(self.actors@, key@);
                assert(self.actors@[i as int].0 == key@);
            }
            self.actors.set(key, plan.actors[i]);
            i += 1;
        }
        self.frame = self.frame.wrapping_add(1);
        self.scroll_pos = plan.scroll_pos;
        proof {
            assert forall|id: u64| #[trigger]
                self@.behaviors.dom().contains(id) implies lookup(self@.actors, id) is Some by {
                lemma_lookup_unique(before.actors, id);
                lemma_lookup_unique(self@.actors, id);
                let j = index_of(before.actors, id).unwrap();
                assert(self@.actors[j].0 == before.actors[j].0);
            }
        }
        Some(plan.sounds)
    }

    /// Advances the game by one tick: every actor runs its behaviors, then
    /// every actor moves by its velocity, the frame counter advances and the
    /// camera follows the player. Returns the sounds that the behaviors ask
    /// for, in the order of the registry.
    pub fn update(&mut self, input: &InputSnapshot) -> (heard: Vec<SoundEffect>)
        requires
            old(self)@.wf(),
            old(self)@.can_tick(*input),
        ensures
            final(self)@.wf(),
            old(self)@.ticks_to(final(self)@, *input),
            heard@ == old(self)@.sounds_through(old(self)@.actors.len() as int, *input),
    {
        match self.try_update(input) {
            Some(heard) => heard,
            None => {
                assert(false);
                Vec::new()
            },
        }
    }
}

/// The player and the enemies after some spawns depend on the keys of
/// those spawns only.
proof fn lemma_after_spawns_prefix(game: GameModel, keys: Seq<u64>, more: Seq<u64>, n: int)
    requires
        n <= keys.len() <= more.len(),
        forall|i: int| 0 <= i < keys.len() ==> keys[i] == more[i],
    ensures
        game.player_after(keys, n) == game.player_after(more, n),
        game.enemies_after(keys, n) == game.enemies_after(more, n),
    decreases n,
{
    if n > 0 {
        lemma_after_spawns_prefix(game, keys, more, n - 1);
    }
}

impl<'a> Game<'a> {
    /// Whether the level can be loaded: its entities can be written in
    /// fixed point, and the registry has room for them.
    pub fn can_load_level(&self) -> (r: bool)
        requires
            self@.wf(),
        ensures
            r == (self@.level.entities_fit() && self@.actors.len() + self@.entities().len()
                < 0xffff_fffe),
    {
        let held = self.actors.len();
        let more = self.level.starting_positions.len();
        self.level.can_spawn() && held < 0xffff_fffe && more < 0xffff_fffe - held
    }

    /// Spawns the entities that the level starts with, in their order: each
    /// gets an actor in the registry and its behaviors; the last player
    /// among them becomes the player, the bats join the enemies.
    pub fn load_level(&mut self)
        requires
            old(self)@.wf(),
            old(self)@.level.entities_fit(),
            old(self)@.actors.len() + old(self)@.entities().len() < 0xffff_fffe,
        ensures
            final(self)@.wf(),
            exists|keys: Seq<u64>|
                old(self)@.loaded(final(self)@, keys, old(self)@.entities().len() as int),
    {
        let level = self.level;
        let ghost before = self@;
        let ghost mut keys: Seq<u64> = Seq::empty();
        let mut i: usize = 0;
        while i < level.starting_positions.len()
            invariant
                i <= level.starting_positions.len(),
                *level == before.level,
                before.wf(),
                before.level.entities_fit(),
                before.actors.len() + before.entities().len() < 0xffff_fffe,
                self.actors.wf(),
                self@.wf(),
                before.loaded(self@, keys, i as int),
            decreases level.starting_positions.len() - i,
        {
            let entity = &level.starting_positions[i];
            assert(before.entities()[i as int].fits());
            let position = entity.1.to_fixed();
            let maybe_size = match entity.2 {
                Some(size) => Some(size.to_fixed()),
                None => None,
            };
            let offset = entity.4.to_fixed();
            let (max_velocity, acceleration) = match entity.0 {
                EntityType::Player => (
                    Some(
                        Vector2D {
                            x: Fixed::from_raw(RUN_SPEED_RAW),
                            y: Fixed::from_raw(PLAYER_JUMP_RAW),
                        },
                    ),
                    Some(
                        Vector2D {
                            x: Fixed::from_raw(PLAYER_ACCELERATION_RAW),
                            y: Fixed::from_raw(PLAYER_ACCELERATION_RAW),
                        },
                    ),
                ),
                EntityType::Bat => (
                    Some(
                        Vector2D {
                            x: Fixed::from_raw(RUN_SPEED_RAW),
                            y: Fixed::from_raw(BAT_FLAP_RAW),
                        },
                    ),
                    Some(
                        Vector2D {
                            x: Fixed::from_raw(PLAYER_ACCELERATION_RAW),
                            y: Fixed::from_raw(BAT_GRAVITY_RAW),
                        },
                    ),
                ),
                EntityType::Door => (None, None),
            };
            let actor = Actor::new(
                entity.0.tags(),
                position,
                maybe_size,
                offset,
                max_velocity,
                acceleration,
            );
            assert(actor@ == spawn_of(before.entities()[i as int]));
            let ghost current = self@;
            let key = self.actors.insert(actor);
            proof {
                // The key is none of the keys given out so far, and new to
                // the registry as it was before the level was loaded.
                assert forall|j: int| 0 <= j < i implies keys[j] != key@ by {
                    assert(lookup(current.actors, keys[j]) is Some);
                }
                assert(!keys.contains(key@));
                assert(lookup(current.actors, key@) == lookup(before.actors, key@));
                // No list of behaviors is attached to a key of its slot.
                assert forall|other: u64| #[trigger]
                    self.behaviors@.dom().contains(other) && other != key@ implies slot_of(other)
                    != slot_of(key@) by {
                    assert(current.wf());
                    assert(current.behaviors.dom().contains(other));
                    assert(lookup(current.actors, other) is Some);
                    let at = index_of(current.actors, other).unwrap();
                    assert(current.actors[at].0 == other);
                }
            }
            match entity.0 {
                EntityType::Player => {
                    self.player = key;
                },
                EntityType::Bat => {
                    let ghost listed = self.enemies@;
                    self.enemies.push(key);
                    assert(key_ids(self.enemies@) =~= key_ids(listed).push(key@));
                },
                EntityType::Door => {},
            }
            self.behaviors.insert(key, entity.3.clone());
            proof {
                let grown = keys.push(key@);
                lemma_after_spawns_prefix(before, keys, grown, i as int);
                assert forall|j: int| 0 <= j < i + 1 implies lookup(
                    before.actors,
                    #[trigger] grown[j],
                ) is None && !is_null_id(grown[j]) by {
                    if j < i {
                        assert(grown[j] == keys[j]);
                    }
                }
                assert forall|a: int, b: int| 0 <= a < b < i + 1 implies grown[a] != grown[b] by {
                    assert(grown[a] == keys[a]);
                    if b < i {
                        assert(grown[b] == keys[b]);
                    }
                }
                assert forall|j: int| 0 <= j < i + 1 implies (lookup(
                    self@.actors,
                    #[trigger] grown[j],
                ) matches Some(spawned) && spawned@ == spawn_of(before.entities()[j]))
                    && self@.behaviors.dom().contains(grown[j]) && self@.behaviors[grown[j]]
                    == before.entities()[j].3@ by {
                    if j < i {
                        assert(grown[j] == keys[j]);
                        assert(keys[j] != key@);
                    }
                }
                assert forall|id: u64| !grown.contains(id) implies #[trigger] lookup(
                    self@.actors,
                    id,
                ) == lookup(before.actors, id) by {
                    assert(grown[i as int] == key@);
                    assert forall|j: int| 0 <= j < i implies keys[j] != id by {
                        assert(grown[j] == keys[j]);
                    }
                }
                assert forall|id: u64| !grown.contains(id) implies (
                #[trigger] self@.behaviors.dom().contains(id) == before.behaviors.dom().contains(
                    id,
                )) && (before.behaviors.dom().contains(id) ==> self@.behaviors[id]
                    == before.behaviors[id]) by {
                    assert(grown[i as int] == key@);
                    assert forall|j: int| 0 <= j < i implies keys[j] != id by {
                        assert(grown[j] == keys[j]);
                    }
                    assert(!keys.contains(id));
                }
                assert forall|id: u64| #[trigger]
                    self@.behaviors.dom().contains(id) implies lookup(self@.actors, id) is Some by {
                    if id != key@ {
                        assert(current.behaviors.dom().contains(id));
                    }
                }
                keys = grown;
            }
            i += 1;
        }
    }
}

impl<'a> Game<'a> {
    /// Whether the frame can be drawn: the condition under which
    /// [`Game::render`] may be called.
    pub fn can_render(&self) -> (r: bool)
        requires
            self@.wf(),
        ensures
            r == self@.can_draw(),
    {
        let keys = self.actors.keys();
        let mut i: usize = 0;
        while i < keys.len()
            invariant
                i <= keys.len(),
                self@.wf(),
                keys@.len() == self@.actors.len(),
                forall|j: int|
                    0 <= j < keys@.len() ==> index_of(self@.actors, (#[trigger] keys@[j])@) == Some(
                        j,
                    ),
                forall|j: int|
                    0 <= j < i && (#[trigger] self@.actors[j]).1@.drawable()
                        ==> self@.actors[j].1@.screen_position_fits(self@.scroll_pos),
            decreases keys.len() - i,
        {
            match self.actors.get(keys[i]) {
                Some(actor) => {
                    assert(actor == self@.actors[i as int].1);
                    if actor.visible && actor.tags.get(actor.state).is_some()
                        && !actor.screen_position_fits(self.scroll_pos) {
                        return false;
                    }
                },
                None => {
                    assert(false);
                },
            }
            i += 1;
        }
        true
    }

    /// The sprites to draw in this frame, for a display with room for
    /// `slots` of them: one for each actor that is visible and has an
    /// animation for its state, in the order of the registry. Where the room
    /// runs out, the remaining actors are not drawn.
    pub fn render(&self, slots: usize) -> (r: Vec<DrawCommand>)
        requires
            self@.wf(),
            self@.can_draw(),
        ensures
            r@ == self@.draws(slots),
    {
        let keys = self.actors.keys();
        let mut out: Vec<DrawCommand> = Vec::new();
        let mut i: usize = 0;
        while i < keys.len()
            invariant
                i <= keys.len(),
                self@.wf(),
                self@.can_draw(),
                keys@.len() == self@.actors.len(),
                forall|j: int|
                    0 <= j < keys@.len() ==> index_of(self@.actors, (#[trigger] keys@[j])@) == Some(
                        j,
                    ),
                out@ == if slots < self@.draws_through(i as int).len() {
                    self@.draws_through(i as int).take(slots as int)
                } else {
                    self@.draws_through(i as int)
                },
            decreases keys.len() - i,
        {
            let ghost before = self@.draws_through(i as int);
            match self.actors.get(keys[i]) {
                Some(actor) => {
                    assert(actor == self@.actors[i as int].1);
                    match actor.render(self.scroll_pos, self.frame) {
                        Some(command) => {
                            if out.len() < slots {
                                out.push(command);
                            } else {
                                assert(before.push(command).take(slots as int) =~= if slots
                                    < before.len() {
                                    before.take(slots as int)
                                } else {
                                    before
                                });
                            }
                        },
                        None => {},
                    }
                },
                None => {
                    assert(false);
                },
            }
            i += 1;
        }
        out
    }
}

} // verus!
