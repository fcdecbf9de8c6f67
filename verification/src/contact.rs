//! Contact between the player and the enemies: whether the collision mask
//! of any tracked enemy overlaps that of the player.
//!
//! Contact is decided once per tick. However many enemies overlap the
//! player, there is contact or there is none.

use crate::actor::Actor;
use crate::geometry::touches;
use crate::registry::{lookup, ActorKey, ActorRegistry};
use vstd::prelude::*;

verus! {

/// The numbers of a list of keys.
pub open spec fn key_ids(keys: Seq<ActorKey>) -> Seq<u64> {
    Seq::new(keys.len(), |i: int| keys[i]@)
}

/// Whether the registry holds an actor under `id` whose collision mask
/// overlaps that of `me`.
pub open spec fn enemy_touches(items: Seq<(u64, Actor)>, id: u64, me: Actor) -> bool {
    lookup(items, id) matches Some(enemy) && touches(enemy@.collision_mask, me@.collision_mask)
}

/// Whether any of the enemies overlaps `me`.
pub open spec fn touching(items: Seq<(u64, Actor)>, enemies: Seq<u64>, me: Actor) -> bool {
    exists|e: int| 0 <= e < enemies.len() && enemy_touches(items, #[trigger] enemies[e], me)
}

/// Whether the overlap of `me` with each of the enemies can be decided
/// within the machine word.
pub open spec fn touching_fits(items: Seq<(u64, Actor)>, enemies: Seq<u64>, me: Actor) -> bool {
    &&& me@.mask_fits()
    &&& forall|e: int|
        0 <= e < enemies.len() ==> (lookup(items, #[trigger] enemies[e]) matches Some(enemy)
            ==> enemy@.mask_fits())
}

/// Whether any enemy overlaps `me`; nothing where an overlap cannot be
/// decided within the machine word.
pub fn any_enemy_touches(actors: &ActorRegistry, enemies: &[ActorKey], me: &Actor) -> (r: Option<
    bool,
>)
    requires
        actors.wf(),
    ensures
        r is Some <==> touching_fits(actors@, key_ids(enemies@), *me),
        r matches Some(found) ==> found == touching(actors@, key_ids(enemies@), *me),
{
    if !me.mask_fits() {
        return None;
    }
    let ghost ids = key_ids(enemies@);
    let mut found = false;
    let mut e: usize = 0;
    while e < enemies.len()
        invariant
            e <= enemies.len(),
            actors.wf(),
            ids == key_ids(enemies@),
            me@.mask_fits(),
            forall|j: int|
                0 <= j < e ==> (lookup(actors@, #[trigger] ids[j]) matches Some(enemy)
                    ==> enemy@.mask_fits()),
            found == exists|j: int| 0 <= j < e && enemy_touches(actors@, #[trigger] ids[j], *me),
        decreases enemies.len() - e,
    {
        assert(ids[e as int] == enemies@[e as int]@);
        match actors.get(enemies[e]) {
            Some(enemy) => {
                if !enemy.mask_fits() {
                    return None;
                }
                if enemy.collision_mask.touches(me.collision_mask) {
                    found = true;
                }
            },
            None => {},
        }
        e += 1;
    }
    Some(found)
}

} // verus!
