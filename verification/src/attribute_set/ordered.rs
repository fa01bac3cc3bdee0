//! The ordered map that holds a set's attributes, and what this library
//! takes for granted about it.
//!
//! The map is an `indexmap::IndexMap` keyed by name. Verus does not look
//! inside it. Its contents are known here as a sequence of entries, in the
//! map's order, and each method that the library calls is stated over that
//! sequence as the documentation and source of `indexmap` describe it.
//! Nothing in this file is proved.

use crate::attribute::Attribute;
use crate::value::Name;
use indexmap::IndexMap;
use vstd::prelude::*;

verus! {

/// `indexmap::IndexMap`, whose inside stays hidden.
#[verifier::external_type_specification]
#[verifier::external_body]
#[verifier::reject_recursive_types(K)]
#[verifier::reject_recursive_types(V)]
#[verifier::reject_recursive_types(S)]
pub struct ExIndexMap<K, V, S>(IndexMap<K, V, S>);

/// The entries of `map`, each a name and its attribute, in the order in which
/// the map walks them.
pub uninterp spec fn entries(map: IndexMap<Name, Attribute>) -> Seq<(Name, Attribute)>;

/// Whether some entry of `s` is stored under `name`.
pub open spec fn has_key(s: Seq<(Name, Attribute)>, name: Name) -> bool {
    exists|i: int| 0 <= i < s.len() && (#[trigger] s[i]).0 == name
}

/// `IndexMap::new`: the map it returns has no entries.
#[verifier::external_body]
pub(crate) fn new_map() -> (map: IndexMap<Name, Attribute>)
    ensures
        entries(map) == Seq::<(Name, Attribute)>::empty(),
{
    IndexMap::new()
}

/// `IndexMap::try_reserve`: asks for room for `additional` more entries and
/// says whether it was had, which is up to the allocator. The entries stay
/// as they are either way.
#[verifier::external_body]
pub(crate) fn try_reserve(map: &mut IndexMap<Name, Attribute>, additional: usize) -> (done: bool)
    ensures
        entries(*final(map)) == entries(*old(map)),
{
    map.try_reserve(additional).is_ok()
}

/// `IndexMap::len`: the number of entries.
#[verifier::external_body]
pub(crate) fn len(map: &IndexMap<Name, Attribute>) -> (n: usize)
    ensures
        n == entries(*map).len(),
{
    map.len()
}

/// `IndexMap::insert`: where an entry is stored under `name`, it keeps its
/// place, its attribute is replaced by `attribute`, and the attribute it held
/// is returned; otherwise the new entry comes last and `None` is returned.
#[verifier::external_body]
pub(crate) fn insert(map: &mut IndexMap<Name, Attribute>, name: Name, attribute: Attribute) -> (r:
    Option<Attribute>)
    ensures
        match r {
            Some(previous) => exists|i: int|
                0 <= i < entries(*old(map)).len()
                    && #[trigger] entries(*old(map))[i] == (name, previous)
                    && entries(*final(map)) == entries(*old(map)).update(i, (name, attribute)),
            None => !has_key(entries(*old(map)), name)
                && entries(*final(map)) == entries(*old(map)).push((name, attribute)),
        },
{
    map.insert(name, attribute)
}

/// `IndexMap::contains_key`: whether an entry is stored under `name`.
#[verifier::external_body]
pub(crate) fn contains_key(map: &IndexMap<Name, Attribute>, name: Name) -> (b: bool)
    ensures
        b == has_key(entries(*map), name),
{
    map.contains_key(&name)
}

/// `IndexMap::get`: the attribute of an entry stored under `name`, or `None`
/// if there is no such entry.
#[verifier::external_body]
pub(crate) fn get(map: &IndexMap<Name, Attribute>, name: Name) -> (r: Option<&Attribute>)
    ensures
        match r {
            Some(attribute) => exists|i: int|
                0 <= i < entries(*map).len() && #[trigger] entries(*map)[i] == (name, *attribute),
            None => !has_key(entries(*map), name),
        },
{
    map.get(&name)
}

/// `IndexMap::get_mut`: as `get`, but the attribute can be changed in its
/// place; no other entry changes, nor the name it is stored under.
#[verifier::external_body]
pub(crate) fn get_mut(map: &mut IndexMap<Name, Attribute>, name: Name) -> (r: Option<
    &mut Attribute,
>)
    ensures
        match r {
            Some(attribute) => exists|i: int|
                0 <= i < entries(*old(map)).len()
                    && #[trigger] entries(*old(map))[i] == (name, *attribute)
                    && entries(*final(map)) == entries(*old(map)).update(
                    i,
                    (name, *final(attribute)),
                ),
            None => !has_key(entries(*old(map)), name)
                && entries(*final(map)) == entries(*old(map)),
        },
{
    map.get_mut(&name)
}

/// `IndexMap::get_index`: the entry at place `index`, counted from 0 in the
/// map's order, or `None` past the last entry. The name is handed out as a
/// copy.
#[verifier::external_body]
pub(crate) fn get_index(map: &IndexMap<Name, Attribute>, index: usize) -> (r: Option<
    (Name, &Attribute),
>)
    ensures
        match r {
            Some((name, attribute)) => index < entries(*map).len()
                && entries(*map)[index as int] == (name, *attribute),
            None => index >= entries(*map).len(),
        },
{
    map.get_index(index).map(|(name, attribute)| (*name, attribute))
}

/// `IndexMap::get_index_mut`: as `get_index`, but the attribute can be
/// changed in its place; no other entry changes, nor the name it is stored
/// under.
#[verifier::external_body]
pub(crate) fn get_index_mut(map: &mut IndexMap<Name, Attribute>, index: usize) -> (r: Option<
    (Name, &mut Attribute),
>)
    ensures
        match r {
            Some((name, attribute)) => index < entries(*old(map)).len()
                && entries(*old(map))[index as int] == (name, *attribute)
                && entries(*final(map)) == entries(*old(map)).update(
                index as int,
                (name, *final(attribute)),
            ),
            None => index >= entries(*old(map)).len()
                && entries(*final(map)) == entries(*old(map)),
        },
{
    map.get_index_mut(index).map(|(name, attribute)| (*name, attribute))
}

} // verus!
