//! The game keeps its tables in bevy's hash collections
//! (`bevy::platform::collections::{HashMap, HashSet}`, hashbrown with bevy's
//! fixed hasher). This module declares those types to Verus and gives each
//! method the game calls a small contract over the table's contents.
//!
//! What a table holds is named by one spec function per instantiation; the
//! iteration order of a table is left unstated (it depends on the history of
//! insertions), so the functions that list a table only promise which items
//! come out, each once.
use vstd::prelude::*;

use bevy::platform::collections::{HashMap, HashSet};

use crate::game::building::BuildingInfo;

verus! {

#[verifier::external_type_specification]
#[verifier::external_body]
#[verifier::reject_recursive_types(K)]
#[verifier::reject_recursive_types(V)]
#[verifier::reject_recursive_types(S)]
pub struct ExBevyHashMap<K, V, S>(HashMap<K, V, S>);

#[verifier::external_type_specification]
#[verifier::external_body]
#[verifier::reject_recursive_types(T)]
#[verifier::reject_recursive_types(S)]
pub struct ExBevyHashSet<T, S>(HashSet<T, S>);

#[verifier::external_type_specification]
#[verifier::external_body]
pub struct ExFixedHasher(bevy::platform::hash::FixedHasher);

// ---------------------------------------------------------------------------
// Building table: building id -> building info
// ---------------------------------------------------------------------------

/// The entries of a building table, by building id.
pub uninterp spec fn building_table(table: HashMap<usize, BuildingInfo>) -> Map<usize, BuildingInfo>;

/// `HashMap::new`: an empty table.
#[verifier::external_body]
pub(crate) fn building_table_new() -> (table: HashMap<usize, BuildingInfo>)
    ensures
        building_table(table) =~= Map::empty(),
{
    HashMap::new()
}

/// `keys` is a finite set of `count` elements.
pub open spec fn counts<K>(keys: Set<K>, count: usize) -> bool {
    keys.finite() && keys.len() == count
}

/// `HashMap::len`: the number of entries (a table holds finitely many).
#[verifier::external_body]
pub(crate) fn building_table_len(table: &HashMap<usize, BuildingInfo>) -> (len: usize)
    ensures
        counts(building_table(*table).dom(), len),
{
    table.len()
}

/// `HashMap::contains_key`: whether the id has an entry.
#[verifier::external_body]
pub(crate) fn building_table_contains(table: &HashMap<usize, BuildingInfo>, id: usize) -> (found: bool)
    ensures
        found == building_table(*table).dom().contains(id),
{
    table.contains_key(&id)
}

/// `HashMap::insert`: the id now maps to `info`, every other entry stays.
#[verifier::external_body]
pub(crate) fn building_table_insert(table: &mut HashMap<usize, BuildingInfo>, id: usize, info: BuildingInfo)
    ensures
        building_table(*final(table)) == building_table(*old(table)).insert(id, info),
{
    table.insert(id, info);
}

/// `HashMap::remove`: the id no longer has an entry, every other entry stays.
#[verifier::external_body]
pub(crate) fn building_table_remove(table: &mut HashMap<usize, BuildingInfo>, id: usize)
    ensures
        building_table(*final(table)) == building_table(*old(table)).remove(id),
{
    table.remove(&id);
}

/// `HashMap::get_mut`: a mutable reference to the entry of the id, if any;
/// what is written through it becomes the entry, the other entries stay.
#[verifier::external_body]
pub(crate) fn building_table_get_mut(table: &mut HashMap<usize, BuildingInfo>, id: usize) -> (info: Option<&mut BuildingInfo>)
    ensures
        info is Some <==> building_table(*old(table)).dom().contains(id),
        info is Some ==> *info->0 == building_table(*old(table))[id],
        info is Some ==> building_table(*final(table)) == building_table(*old(table)).insert(id, *final(info->0)),
        info is None ==> building_table(*final(table)) == building_table(*old(table)),
{
    table.get_mut(&id)
}

/// `HashMap::iter`, copied into a vector: each entry once, in the table's
/// iteration order (which is not stated).
#[verifier::external_body]
pub(crate) fn building_table_entries(table: &HashMap<usize, BuildingInfo>) -> (entries: Vec<(usize, BuildingInfo)>)
    ensures
        entries@.len() == building_table(*table).dom().len(),
        forall|id: usize| building_table(*table).dom().contains(id) ==> exists|i: int| 0 <= i < entries@.len() && #[trigger] entries@[i].0 == id,
        forall|i: int, j: int| 0 <= i < j < entries@.len() ==> entries@[i].0 != entries@[j].0,
        forall|i: int| 0 <= i < entries@.len() ==> building_table(*table).dom().contains(#[trigger] entries@[i].0)
            && building_table(*table)[entries@[i].0] == entries@[i].1,
{
    table.iter().map(|(id, info)| (*id, *info)).collect()
}

// ---------------------------------------------------------------------------
// Id sets (entities written as their 64-bit form)
// ---------------------------------------------------------------------------

/// The ids that an id set holds.
pub uninterp spec fn id_set(set: HashSet<u64>) -> Set<u64>;

/// `HashSet::new`: an empty set.
#[verifier::external_body]
pub(crate) fn id_set_new() -> (set: HashSet<u64>)
    ensures
        id_set(set) =~= Set::empty(),
{
    HashSet::new()
}

/// `HashSet::len`: the number of ids (a set holds finitely many).
#[verifier::external_body]
pub(crate) fn id_set_len(set: &HashSet<u64>) -> (len: usize)
    ensures
        counts(id_set(*set), len),
{
    set.len()
}

/// `HashSet::contains`.
#[verifier::external_body]
pub(crate) fn id_set_contains(set: &HashSet<u64>, id: u64) -> (found: bool)
    ensures
        found == id_set(*set).contains(id),
{
    set.contains(&id)
}

/// `HashSet::insert`: the id is now in the set.
#[verifier::external_body]
pub(crate) fn id_set_insert(set: &mut HashSet<u64>, id: u64)
    ensures
        id_set(*final(set)) == id_set(*old(set)).insert(id),
{
    set.insert(id);
}

/// `HashSet::remove`: the id is no longer in the set.
#[verifier::external_body]
pub(crate) fn id_set_remove(set: &mut HashSet<u64>, id: u64)
    ensures
        id_set(*final(set)) == id_set(*old(set)).remove(id),
{
    set.remove(&id);
}

/// `HashSet::clear`: the set is empty.
#[verifier::external_body]
pub(crate) fn id_set_clear(set: &mut HashSet<u64>)
    ensures
        id_set(*final(set)) =~= Set::empty(),
{
    set.clear();
}

/// `HashSet::iter`, copied into a vector: each id once, in the set's
/// iteration order (which is not stated).
#[verifier::external_body]
pub(crate) fn id_set_elements(set: &HashSet<u64>) -> (ids: Vec<u64>)
    ensures
        ids@.no_duplicates(),
        ids@.to_set() == id_set(*set),
{
    set.iter().copied().collect()
}

// ---------------------------------------------------------------------------
// File-name sets
// ---------------------------------------------------------------------------

/// The file names (as character sequences) that a name set holds.
pub uninterp spec fn name_set(set: HashSet<String>) -> Set<Seq<char>>;

/// `HashSet::new`: an empty set.
#[verifier::external_body]
pub(crate) fn name_set_new() -> (set: HashSet<String>)
    ensures
        name_set(set) =~= Set::empty(),
{
    HashSet::new()
}

/// `HashSet::insert`: the name is now in the set (strings are compared by
/// their characters).
#[verifier::external_body]
pub(crate) fn name_set_insert(set: &mut HashSet<String>, name: String)
    ensures
        name_set(*final(set)) == name_set(*old(set)).insert(name@),
{
    set.insert(name);
}

/// `HashSet::remove`: the name is no longer in the set.
#[verifier::external_body]
pub(crate) fn name_set_remove(set: &mut HashSet<String>, name: &str)
    ensures
        name_set(*final(set)) == name_set(*old(set)).remove(name@),
{
    set.remove(name);
}

/// `HashSet::iter`, cloned into a vector: each name once, in the set's
/// iteration order (which is not stated).
#[verifier::external_body]
pub(crate) fn name_set_elements(set: &HashSet<String>) -> (names: Vec<String>)
    ensures
        forall|i: int, j: int| 0 <= i < j < names@.len() ==> names@[i]@ != names@[j]@,
        forall|i: int| 0 <= i < names@.len() ==> name_set(*set).contains(#[trigger] names@[i]@),
        forall|s: Seq<char>| name_set(*set).contains(s) ==> exists|i: int| 0 <= i < names@.len() && #[trigger] names@[i]@ == s,
{
    set.iter().cloned().collect()
}

// ---------------------------------------------------------------------------
// Index tables: a number -> a number (head quarter slot -> player id)
// ---------------------------------------------------------------------------

/// The entries of an index table.
pub uninterp spec fn index_table(table: HashMap<usize, usize>) -> Map<usize, usize>;

/// `HashMap::get`, copied out: the entry of the key, if any.
#[verifier::external_body]
pub(crate) fn index_table_get(table: &HashMap<usize, usize>, key: usize) -> (value: Option<usize>)
    ensures
        value == (if index_table(*table).dom().contains(key) {
            Some(index_table(*table)[key])
        } else {
            None
        }),
{
    table.get(&key).copied()
}

// ---------------------------------------------------------------------------
// Owner tables: a number -> an entity (player id -> player, building id -> owner)
// ---------------------------------------------------------------------------

/// The entries of an owner table (entities written as their 64-bit form).
pub uninterp spec fn owner_table(table: HashMap<usize, u64>) -> Map<usize, u64>;

/// `HashMap::new`: an empty table.
#[verifier::external_body]
pub(crate) fn owner_table_new() -> (table: HashMap<usize, u64>)
    ensures
        owner_table(table) =~= Map::empty(),
{
    HashMap::new()
}

/// `HashMap::insert`: the key now maps to `owner`, every other entry stays.
#[verifier::external_body]
pub(crate) fn owner_table_insert(table: &mut HashMap<usize, u64>, key: usize, owner: u64)
    ensures
        owner_table(*final(table)) == owner_table(*old(table)).insert(key, owner),
{
    table.insert(key, owner);
}

/// `HashMap::get`, copied out: the entry of the key, if any.
#[verifier::external_body]
pub(crate) fn owner_table_get(table: &HashMap<usize, u64>, key: usize) -> (owner: Option<u64>)
    ensures
        owner == (if owner_table(*table).dom().contains(key) {
            Some(owner_table(*table)[key])
        } else {
            None
        }),
{
    table.get(&key).copied()
}

} // verus!
