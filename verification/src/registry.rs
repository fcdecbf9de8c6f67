//! The actor registry: storage with stable keys, kept by the `slotmap`
//! crate.
//!
//! A key names one spawn and is never given out twice while its actor
//! lives. The registry hands its actors out in a fixed order, which is the
//! order in which a tick visits them and a frame draws them.

use crate::actor::Actor;
use crate::behaviors::Behavior;
use slotmap::{DefaultKey, Key, SecondaryMap, SlotMap};
use vstd::prelude::*;

verus! {

#[verifier::external_type_specification]
#[verifier::external_body]
pub struct ExDefaultKey(DefaultKey);

/// The slot map that holds the actors. Verus sees nothing inside it: what
/// it holds is named by [`slot_map_items`].
#[verifier::external_body]
pub struct ActorSlots {
    map: SlotMap<DefaultKey, Actor>,
}

/// The secondary map that holds the behavior lists. Verus sees nothing
/// inside it: what it holds is named by [`secondary_map_entries`].
#[verifier::external_body]
pub struct BehaviorLists {
    map: SecondaryMap<DefaultKey, Vec<Behavior>>,
}

/// Most actors that a registry is made to hold before it grows.
pub const REGISTRY_CAPACITY: usize = 100;

/// The number that `slotmap` gives a key for passing it around as plain
/// data; two keys are the same key exactly if they have the same number.
pub uninterp spec fn key_id(key: DefaultKey) -> u64;

/// What a slot map of actors holds: each key with its actor, in the order
/// in which the map hands them out.
pub uninterp spec fn slot_map_items(map: ActorSlots) -> Seq<(u64, Actor)>;

/// What a secondary map of behavior lists holds: the list of each key that
/// has one.
pub uninterp spec fn secondary_map_entries(
    map: BehaviorLists,
) -> Map<u64, Seq<Behavior>>;

/// The part of a key's number that names its slot: the low 32 bits.
pub open spec fn slot_of(id: u64) -> int {
    id as int % 0x1_0000_0000
}

/// Whether the number is that of a null key, which names the slot that no
/// map has.
pub open spec fn is_null_id(id: u64) -> bool {
    slot_of(id) == 0xffff_ffff
}

/// Whether no item of the sequence has a key in the slot of `id`.
pub open spec fn slot_is_free(items: Seq<(u64, Actor)>, id: u64) -> bool {
    forall|i: int| 0 <= i < items.len() ==> slot_of((#[trigger] items[i]).0) != slot_of(id)
}

/// The place of the key `id` in the sequence, if it has one.
pub open spec fn index_of(items: Seq<(u64, Actor)>, id: u64) -> Option<int> {
    if exists|i: int| 0 <= i < items.len() && (#[trigger] items[i]).0 == id {
        Some(choose|i: int| 0 <= i < items.len() && (#[trigger] items[i]).0 == id)
    } else {
        None
    }
}

/// The actor that the sequence holds under the key `id`, if any.
pub open spec fn lookup(items: Seq<(u64, Actor)>, id: u64) -> Option<Actor> {
    match index_of(items, id) {
        Some(i) => Some(items[i].1),
        None => None,
    }
}

/// Whether the keys of the sequence name pairwise different slots.
pub open spec fn slots_distinct(items: Seq<(u64, Actor)>) -> bool {
    forall|i: int, j: int|
        0 <= i < items.len() && 0 <= j < items.len() && i != j ==> slot_of(
            (#[trigger] items[i]).0,
        ) != slot_of((#[trigger] items[j]).0)
}

/// `slotmap`'s `Key::null` for `DefaultKey`: a key that names the slot that
/// no map has.
#[verifier::external_body]
fn key_null() -> (r: DefaultKey)
    ensures
        is_null_id(key_id(r)),
{
    DefaultKey::null()
}

/// `slotmap`'s `KeyData::as_ffi` on the data of a `DefaultKey`: the number
/// of the key.
#[verifier::external_body]
fn key_number(key: DefaultKey) -> (r: u64)
    ensures
        r == key_id(key),
{
    key.data().as_ffi()
}

/// `slotmap`'s `SlotMap::with_capacity_and_key`: an empty map. The capacity
/// is bounded so that the allocation it asks for has a size.
#[verifier::external_body]
fn slot_map_new(capacity: usize) -> (r: ActorSlots)
    requires
        capacity <= 0x1_0000,
    ensures
        slot_map_items(r).len() == 0,
{
    ActorSlots { map: SlotMap::with_capacity_and_key(capacity) }
}

/// `slotmap`'s `SlotMap::insert`: the actor is stored under a key that is
/// not null and whose slot no key of the map names; it takes some place in
/// the order, and everything else keeps its place. The outside function
/// panics on a full map, which a map with fewer than 2^32 - 2 actors is
/// not.
#[verifier::external_body]
fn slot_map_insert(map: &mut ActorSlots, actor: Actor) -> (key: DefaultKey)
    requires
        slot_map_items(*old(map)).len() < 0xffff_fffe,
    ensures
        !is_null_id(key_id(key)),
        slot_is_free(slot_map_items(*old(map)), key_id(key)),
        exists|at: int|
            0 <= at <= slot_map_items(*old(map)).len() && slot_map_items(*final(map))
                == slot_map_items(*old(map)).insert(at, (key_id(key), actor)),
{
    map.map.insert(actor)
}

/// `slotmap`'s `SlotMap::get`, with the actor copied out: the actor stored
/// under the key, or nothing where the map does not hold the key.
#[verifier::external_body]
fn slot_map_get(map: &ActorSlots, key: DefaultKey) -> (r: Option<Actor>)
    ensures
        match r {
            Some(actor) => exists|i: int|
                0 <= i < slot_map_items(*map).len() && #[trigger] slot_map_items(*map)[i] == (
                    key_id(key),
                    actor,
                ),
            None => forall|i: int|
                0 <= i < slot_map_items(*map).len() ==> (#[trigger] slot_map_items(*map)[i]).0
                    != key_id(key),
        },
{
    map.map.get(key).copied()
}

/// `slotmap`'s `IndexMut` for `SlotMap`, used to overwrite: the actor
/// stored under the key is replaced, in place. The outside function panics
/// on a key that the map does not hold.
#[verifier::external_body]
fn slot_map_set(map: &mut ActorSlots, key: DefaultKey, actor: Actor)
    requires
        exists|i: int|
            0 <= i < slot_map_items(*old(map)).len() && (#[trigger] slot_map_items(
                *old(map),
            )[i]).0 == key_id(key),
    ensures
        exists|i: int|
            0 <= i < slot_map_items(*old(map)).len() && (#[trigger] slot_map_items(
                *old(map),
            )[i]).0 == key_id(key) && slot_map_items(*final(map)) == slot_map_items(
                *old(map),
            ).update(i, (key_id(key), actor)),
{
    map.map[key] = actor;
}

/// `slotmap`'s `SlotMap::len`: the number of actors that the map holds.
#[verifier::external_body]
fn slot_map_len(map: &ActorSlots) -> (r: usize)
    ensures
        r == slot_map_items(*map).len(),
{
    map.map.len()
}

/// `slotmap`'s `SlotMap::keys`, collected: the keys of the map in its
/// order.
#[verifier::external_body]
fn slot_map_keys(map: &ActorSlots) -> (r: Vec<DefaultKey>)
    ensures
        r@.len() == slot_map_items(*map).len(),
        forall|i: int| 0 <= i < r@.len() ==> key_id(#[trigger] r@[i]) == slot_map_items(*map)[i].0,
{
    map.map.keys().collect()
}

/// `slotmap`'s `SecondaryMap::with_capacity`: an empty map. The capacity is
/// bounded so that the allocation it asks for has a size.
#[verifier::external_body]
fn secondary_map_new(capacity: usize) -> (r: BehaviorLists)
    requires
        capacity <= 0x1_0000,
    ensures
        secondary_map_entries(r).dom() == Set::<u64>::empty(),
{
    BehaviorLists { map: SecondaryMap::with_capacity(capacity) }
}

/// `slotmap`'s `SecondaryMap::insert`. A null key changes nothing. A key
/// that the map holds gets the new list. A key whose slot no key of the map
/// names is added with the list. (Of a key whose slot is named by another
/// key of the map the contract says nothing.)
#[verifier::external_body]
fn secondary_map_insert(
    map: &mut BehaviorLists,
    key: DefaultKey,
    list: Vec<Behavior>,
)
    ensures
        is_null_id(key_id(key)) ==> secondary_map_entries(*final(map)) == secondary_map_entries(
            *old(map),
        ),
        !is_null_id(key_id(key)) && (secondary_map_entries(*old(map)).dom().contains(key_id(key))
            || forall|other: u64| #[trigger]
            secondary_map_entries(*old(map)).dom().contains(other) ==> slot_of(other) != slot_of(
                key_id(key),
            )) ==> secondary_map_entries(*final(map)) == secondary_map_entries(
            *old(map),
        ).insert(key_id(key), list@),
{
    map.map.insert(key, list);
}

/// `slotmap`'s `SecondaryMap::get`: the list stored under the key, or
/// nothing where the map does not hold the key.
#[verifier::external_body]
fn secondary_map_get(map: &BehaviorLists, key: DefaultKey) -> (r:
    Option<&Vec<Behavior>>)
    ensures
        match r {
            Some(list) => secondary_map_entries(*map).dom().contains(key_id(key)) && list@
                == secondary_map_entries(*map)[key_id(key)],
            None => !secondary_map_entries(*map).dom().contains(key_id(key)),
        },
{
    map.map.get(key)
}

/// The identity of an actor: stable, unique per spawn.
#[derive(Clone, Copy, Debug)]
pub struct ActorKey {
    key: DefaultKey,
}

impl View for ActorKey {
    type V = u64;

    closed spec fn view(&self) -> u64 {
        key_id(self.key)
    }
}

impl ActorKey {
    /// The key that names no actor.
    pub fn null() -> (r: ActorKey)
        ensures
            is_null_id(r@),
    {
        ActorKey { key: key_null() }
    }

    /// The number of the key.
    pub fn id(&self) -> (r: u64)
        ensures
            r == self@,
    {
        key_number(self.key)
    }

    /// Whether the key names no actor.
    pub fn is_null(&self) -> (r: bool)
        ensures
            r == is_null_id(self@),
    {
        key_number(self.key) % 0x1_0000_0000 == 0xffff_ffff
    }

    /// Whether the two keys are the same key.
    pub fn same(&self, other: &ActorKey) -> (r: bool)
        ensures
            r == (self@ == other@),
    {
        key_number(self.key) == key_number(other.key)
    }
}

/// The actors of a game, each under its key.
pub struct ActorRegistry {
    slots: ActorSlots,
}

impl View for ActorRegistry {
    type V = Seq<(u64, Actor)>;

    /// Each key with its actor, in the order of the registry.
    closed spec fn view(&self) -> Seq<(u64, Actor)> {
        slot_map_items(self.slots)
    }
}

impl ActorRegistry {
    /// What holds of every registry that this module makes: its keys name
    /// pairwise different slots, and none is null.
    pub open spec fn wf(&self) -> bool {
        &&& slots_distinct(self@)
        &&& forall|i: int| 0 <= i < self@.len() ==> !is_null_id((#[trigger] self@[i]).0)
    }

    /// An empty registry.
    pub fn new() -> (r: ActorRegistry)
        ensures
            r@ == Seq::<(u64, Actor)>::empty(),
            r.wf(),
    {
        ActorRegistry { slots: slot_map_new(REGISTRY_CAPACITY) }
    }

    /// The number of actors.
    pub fn len(&self) -> (r: usize)
        ensures
            r == self@.len(),
    {
        slot_map_len(&self.slots)
    }

    /// Stores an actor and returns its key: a key that is not null and
    /// names a slot that no key of the registry names. The actor takes some
    /// place in the order; all others keep theirs.
    pub fn insert(&mut self, actor: Actor) -> (key: ActorKey)
        requires
            old(self).wf(),
            old(self)@.len() < 0xffff_fffe,
        ensures
            final(self).wf(),
            !is_null_id(key@),
            slot_is_free(old(self)@, key@),
            lookup(old(self)@, key@) is None,
            exists|at: int|
                0 <= at <= old(self)@.len() && final(self)@ == old(self)@.insert(
                    at,
                    (key@, actor),
                ),
            lookup(final(self)@, key@) == Some(actor),
            forall|id: u64| id != key@ ==> lookup(final(self)@, id) == lookup(old(self)@, id),
    {
        let ghost before = slot_map_items(self.slots);
        let key = slot_map_insert(&mut self.slots, actor);
        proof {
            let after = slot_map_items(self.slots);
            let at = choose|at: int|
                0 <= at <= before.len() && after == before.insert(at, (key_id(key), actor));
            lemma_insert_keeps_distinct(before, at, key_id(key), actor);
            lemma_lookup_after_insert(before, at, key_id(key), actor);
        }
        ActorKey { key }
    }

    /// The actor under the key, if the registry holds the key.
    pub fn get(&self, key: ActorKey) -> (r: Option<Actor>)
        requires
            self.wf(),
        ensures
            r == lookup(self@, key@),
    {
        let r = slot_map_get(&self.slots, key.key);
        proof {
            lemma_lookup_unique(slot_map_items(self.slots), key@);
        }
        r
    }

    /// Replaces the actor under a key that the registry holds; the order
    /// and all other actors stay.
    pub fn set(&mut self, key: ActorKey, actor: Actor)
        requires
            old(self).wf(),
            lookup(old(self)@, key@) is Some,
        ensures
            final(self).wf(),
            final(self)@ == old(self)@.update(index_of(old(self)@, key@).unwrap(), (key@, actor)),
            final(self)@.len() == old(self)@.len(),
    {
        proof {
            lemma_lookup_unique(slot_map_items(self.slots), key@);
        }
        let ghost before = slot_map_items(self.slots);
        slot_map_set(&mut self.slots, key.key, actor);
        proof {
            let after = slot_map_items(self.slots);
            let i = choose|i: int|
                0 <= i < before.len() && (#[trigger] before[i]).0 == key@ && after
                    == before.update(i, (key@, actor));
            assert(index_of(before, key@) == Some(i));
            lemma_update_keeps_distinct(before, i, actor);
        }
    }

    /// The keys of the registry, in its order.
    pub fn keys(&self) -> (r: Vec<ActorKey>)
        requires
            self.wf(),
        ensures
            r@.len() == self@.len(),
            forall|i: int| 0 <= i < r@.len() ==> (#[trigger] r@[i])@ == self@[i].0,
            forall|i: int| 0 <= i < r@.len() ==> index_of(self@, (#[trigger] r@[i])@) == Some(i),
    {
        let raw = slot_map_keys(&self.slots);
        let mut keys: Vec<ActorKey> = Vec::new();
        let mut i: usize = 0;
        while i < raw.len()
            invariant
                i <= raw.len(),
                keys@.len() == i,
                raw@.len() == slot_map_items(self.slots).len(),
                forall|j: int|
                    0 <= j < raw@.len() ==> key_id(#[trigger] raw@[j]) == slot_map_items(
                        self.slots,
                    )[j].0,
                forall|j: int|
                    0 <= j < i ==> (#[trigger] keys@[j])@ == slot_map_items(self.slots)[j].0,
            decreases raw.len() - i,
        {
            keys.push(ActorKey { key: raw[i] });
            i += 1;
        }
        proof {
            assert forall|j: int| 0 <= j < keys@.len() implies index_of(
                self@,
                (#[trigger] keys@[j])@,
            ) == Some(j) by {
                lemma_lookup_unique(self@, keys@[j]@);
                assert(self@[j].0 == keys@[j]@);
            }
        }
        keys
    }
}

/// In a sequence whose keys name different slots, a key has at most one
/// place.
pub proof fn lemma_lookup_unique(items: Seq<(u64, Actor)>, id: u64)
    requires
        slots_distinct(items),
    ensures
        forall|i: int|
            0 <= i < items.len() && (#[trigger] items[i]).0 == id ==> index_of(items, id) == Some(
                i,
            ) && lookup(items, id) == Some(items[i].1),
        (forall|i: int| 0 <= i < items.len() ==> (#[trigger] items[i]).0 != id) ==> lookup(
            items,
            id,
        ) is None,
{
    assert forall|i: int| 0 <= i < items.len() && (#[trigger] items[i]).0 == id implies index_of(
        items,
        id,
    ) == Some(i) && lookup(items, id) == Some(items[i].1) by {
        let c = choose|c: int| 0 <= c < items.len() && (#[trigger] items[c]).0 == id;
        if c != i {
            assert(slot_of(items[c].0) != slot_of(items[i].0));
        }
    }
}

/// Putting a key with a free slot into a sequence keeps the slots
/// different.
proof fn lemma_insert_keeps_distinct(items: Seq<(u64, Actor)>, at: int, id: u64, actor: Actor)
    requires
        slots_distinct(items),
        slot_is_free(items, id),
        0 <= at <= items.len(),
        !is_null_id(id),
        forall|i: int| 0 <= i < items.len() ==> !is_null_id((#[trigger] items[i]).0),
    ensures
        slots_distinct(items.insert(at, (id, actor))),
        forall|i: int|
            0 <= i < items.insert(at, (id, actor)).len() ==> !is_null_id(
                (#[trigger] items.insert(at, (id, actor))[i]).0,
            ),
{
    let after = items.insert(at, (id, actor));
    assert forall|i: int, j: int|
        0 <= i < after.len() && 0 <= j < after.len() && i != j implies slot_of(
        (#[trigger] after[i]).0,
    ) != slot_of((#[trigger] after[j]).0) by {
        let pi = if i < at {
            i
        } else {
            i - 1
        };
        let pj = if j < at {
            j
        } else {
            j - 1
        };
        if i != at {
            assert(after[i] == items[pi]);
        }
        if j != at {
            assert(after[j] == items[pj]);
        }
    }
    assert forall|i: int| 0 <= i < after.len() implies !is_null_id((#[trigger] after[i]).0) by {
        if i != at {
            let pi = if i < at {
                i
            } else {
                i - 1
            };
            assert(after[i] == items[pi]);
        }
    }
}

/// What a sequence holds after a key with a free slot was put in: the new
/// actor under the new key, and under every other key what it held.
proof fn lemma_lookup_after_insert(items: Seq<(u64, Actor)>, at: int, id: u64, actor: Actor)
    requires
        slots_distinct(items),
        slot_is_free(items, id),
        0 <= at <= items.len(),
        slots_distinct(items.insert(at, (id, actor))),
    ensures
        lookup(items, id) is None,
        lookup(items.insert(at, (id, actor)), id) == Some(actor),
        forall|other: u64|
            other != id ==> lookup(items.insert(at, (id, actor)), other) == lookup(items, other),
{
    let after = items.insert(at, (id, actor));
    lemma_lookup_unique(after, id);
    assert(after[at] == (id, actor));
    assert forall|other: u64| other != id implies lookup(after, other) == lookup(items, other) by {
        lemma_lookup_unique(after, other);
        lemma_lookup_unique(items, other);
        if exists|i: int| 0 <= i < items.len() && (#[trigger] items[i]).0 == other {
            let i = choose|i: int| 0 <= i < items.len() && (#[trigger] items[i]).0 == other;
            let ni = if i < at {
                i
            } else {
                i + 1
            };
            assert(after[ni] == items[i]);
        } else {
            assert forall|j: int| 0 <= j < after.len() implies (#[trigger] after[j]).0
                != other by {
                if j != at {
                    let pj = if j < at {
                        j
                    } else {
                        j - 1
                    };
                    assert(after[j] == items[pj]);
                }
            }
        }
    }
}

/// Replacing the actor under a key keeps the keys.
proof fn lemma_update_keeps_distinct(items: Seq<(u64, Actor)>, i: int, actor: Actor)
    requires
        slots_distinct(items),
        0 <= i < items.len(),
        forall|j: int| 0 <= j < items.len() ==> !is_null_id((#[trigger] items[j]).0),
    ensures
        slots_distinct(items.update(i, (items[i].0, actor))),
        forall|j: int|
            0 <= j < items.len() ==> !is_null_id(
                (#[trigger] items.update(i, (items[i].0, actor))[j]).0,
            ),
{
    let after = items.update(i, (items[i].0, actor));
    assert forall|a: int, b: int|
        0 <= a < after.len() && 0 <= b < after.len() && a != b implies slot_of(
        (#[trigger] after[a]).0,
    ) != slot_of((#[trigger] after[b]).0) by {
        assert(after[a].0 == items[a].0);
        assert(after[b].0 == items[b].0);
    }
    assert forall|j: int| 0 <= j < items.len() implies !is_null_id((#[trigger] after[j]).0) by {
        assert(after[j].0 == items[j].0);
    }
}

/// The behavior lists of a game, each under the key of its actor.
pub struct BehaviorTable {
    lists: BehaviorLists,
}

impl View for BehaviorTable {
    type V = Map<u64, Seq<Behavior>>;

    /// The list of each key that has one.
    closed spec fn view(&self) -> Map<u64, Seq<Behavior>> {
        secondary_map_entries(self.lists)
    }
}

impl BehaviorTable {
    /// An empty table.
    pub fn new() -> (r: BehaviorTable)
        ensures
            r@ == Map::<u64, Seq<Behavior>>::empty(),
    {
        BehaviorTable { lists: secondary_map_new(REGISTRY_CAPACITY) }
    }

    /// Attaches a list of behaviors to a key that is not null and whose
    /// slot no other key of the table names.
    pub fn insert(&mut self, key: ActorKey, list: Vec<Behavior>)
        requires
            !is_null_id(key@),
            forall|other: u64| #[trigger]
                old(self)@.dom().contains(other) && other != key@ ==> slot_of(other) != slot_of(
                    key@,
                ),
        ensures
            final(self)@ == old(self)@.insert(key@, list@),
    {
        secondary_map_insert(&mut self.lists, key.key, list);
    }

    /// The list attached to the key, if it has one.
    pub fn get(&self, key: ActorKey) -> (r: Option<&Vec<Behavior>>)
        ensures
            match r {
                Some(list) => self@.dom().contains(key@) && list@ == self@[key@],
                None => !self@.dom().contains(key@),
            },
    {
        secondary_map_get(&self.lists, key.key)
    }
}

} // verus!
