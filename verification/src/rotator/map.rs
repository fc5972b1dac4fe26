//! The priority actions by their ids, in the order in which they were added.

use vstd::prelude::*;

use ordered_hash_map::ordered_map::DefaultHashBuilder;
use ordered_hash_map::OrderedHashMap;

use super::priority::PriorityAction;

verus! {

/// A hash map that keeps the order of insertion.
#[verifier::external_type_specification]
#[verifier::external_body]
#[verifier::reject_recursive_types(K)]
#[verifier::reject_recursive_types(V)]
#[verifier::reject_recursive_types(S)]
pub struct ExOrderedHashMap<K, V, S>(ordered_hash_map::OrderedHashMap<K, V, S>);

/// The hasher of an [`OrderedHashMap`].
#[verifier::external_type_specification]
#[verifier::external_body]
pub struct ExDefaultHashBuilder(ordered_hash_map::ordered_map::DefaultHashBuilder);

/// The actions by their ids.
pub type ActionMap = OrderedHashMap<u32, PriorityAction, DefaultHashBuilder>;

/// What an [`OrderedHashMap`] of actions holds.
pub uninterp spec fn contents(
    map: OrderedHashMap<u32, PriorityAction, DefaultHashBuilder>,
) -> Map<u32, PriorityAction>;

/// The keys of an [`OrderedHashMap`] of actions, in order.
pub uninterp spec fn key_order(
    map: OrderedHashMap<u32, PriorityAction, DefaultHashBuilder>,
) -> Seq<u32>;

/// No actions.
pub open spec fn no_actions() -> Map<u32, PriorityAction> {
    Map::empty()
}

/// All keys but `key`.
pub open spec fn other_than(key: u32) -> spec_fn(u32) -> bool {
    |other: u32| other != key
}

/// The keys after `key` was inserted: it becomes the last one.
pub open spec fn order_with(order: Seq<u32>, key: u32) -> Seq<u32> {
    order.filter(other_than(key)).push(key)
}

/// [`OrderedHashMap::new`] holds nothing.
#[verifier::external_body]
pub(crate) fn new_map() -> (map: ActionMap)
    ensures
        contents(map) == no_actions(),
        key_order(map) == Seq::<u32>::empty(),
{
    OrderedHashMap::new()
}

/// [`OrderedHashMap::insert`] maps the key to the value, hands out the value it was mapped to
/// before, and puts the key last, also if it was there before.
#[verifier::external_body]
pub(crate) fn insert_action(map: &mut ActionMap, id: u32, action: PriorityAction) -> (previous:
    Option<PriorityAction>)
    ensures
        contents(*final(map)) == contents(*old(map)).insert(id, action),
        key_order(*final(map)) == order_with(key_order(*old(map)), id),
        previous == (if contents(*old(map)).contains_key(id) {
            Some(contents(*old(map))[id])
        } else {
            None
        }),
{
    map.insert(id, action)
}

/// [`OrderedHashMap::get`] looks a key up.
#[verifier::external_body]
pub(crate) fn get_action(map: &ActionMap, id: u32) -> (action: Option<&PriorityAction>)
    ensures
        action is Some == contents(*map).contains_key(id),
        action is Some ==> *action->0 == contents(*map)[id],
{
    map.get(&id)
}

/// [`OrderedHashMap::get_mut`] looks a key up, and lets its value be changed in place. The order
/// stays.
#[verifier::external_body]
pub(crate) fn get_action_mut(map: &mut ActionMap, id: u32) -> (action: Option<&mut PriorityAction>)
    ensures
        match action {
            Some(value) => {
                &&& contents(*old(map)).contains_key(id)
                &&& *value == contents(*old(map))[id]
                &&& contents(*final(map)) == contents(*old(map)).insert(id, *final(value))
                &&& key_order(*final(map)) == key_order(*old(map))
            },
            None => {
                &&& !contents(*old(map)).contains_key(id)
                &&& contents(*final(map)) == contents(*old(map))
                &&& key_order(*final(map)) == key_order(*old(map))
            },
        },
{
    map.get_mut(&id)
}

/// [`OrderedHashMap::keys`] walks the keys in order, each of them once.
#[verifier::external_body]
pub(crate) fn action_ids(map: &ActionMap) -> (ids: Vec<u32>)
    ensures
        ids@ == key_order(*map),
        ids@.no_duplicates(),
        ids@.to_set() == contents(*map).dom(),
{
    map.keys().copied().collect()
}

} // verus!
