//! The mathematics of a set: a sequence of entries, each a name and its
//! attribute, in which no name occurs twice.

use crate::attribute::identity::HashKey;
use crate::attribute::Attribute;
use crate::attribute_set::ordered::has_key;
use crate::host::Host;
use crate::value::{Name, Value};
use vstd::prelude::*;
use vstd::set_lib::lemma_subset_equality;

verus! {

/// Whether no two entries of `s` are stored under the same name.
pub open spec fn keys_unique(s: Seq<(Name, Attribute)>) -> bool {
    forall|i: int, j: int|
        0 <= i < s.len() && 0 <= j < s.len() && i != j ==> (#[trigger] s[i]).0 != (
        #[trigger] s[j]).0
}

/// Where in `s` the entry under `name` stands, if there is one.
pub open spec fn position(s: Seq<(Name, Attribute)>, name: Name) -> int {
    choose|i: int| 0 <= i < s.len() && (#[trigger] s[i]).0 == name
}

/// The attribute stored under `name`, if there is one.
pub open spec fn lookup(s: Seq<(Name, Attribute)>, name: Name) -> Option<Attribute> {
    if has_key(s, name) {
        Some(s[position(s, name)].1)
    } else {
        None
    }
}

/// `s` after `attribute` has been stored under `name`: in the place of the
/// entry that was stored there, or last if there was none.
pub open spec fn stored(s: Seq<(Name, Attribute)>, name: Name, attribute: Attribute) -> Seq<
    (Name, Attribute),
> {
    if has_key(s, name) {
        s.update(position(s, name), (name, attribute))
    } else {
        s.push((name, attribute))
    }
}

/// The names of the entries, in order.
pub open spec fn keys(s: Seq<(Name, Attribute)>) -> Seq<Name> {
    Seq::new(s.len(), |i: int| s[i].0)
}

/// The attributes of the entries, in order.
pub open spec fn attributes(s: Seq<(Name, Attribute)>) -> Seq<Attribute> {
    Seq::new(s.len(), |i: int| s[i].1)
}

/// Each attribute under its own name.
pub open spec fn named(attributes: Seq<Attribute>) -> Seq<(Name, Attribute)> {
    Seq::new(attributes.len(), |i: int| (attributes[i].spec_name(), attributes[i]))
}

/// The entries that storing `pairs` one after the other leaves: every name
/// stands where it came first and holds what came last for it.
pub open spec fn built(pairs: Seq<(Name, Attribute)>) -> Seq<(Name, Attribute)>
    decreases pairs.len(),
{
    if pairs.len() == 0 {
        Seq::empty()
    } else {
        stored(built(pairs.drop_last()), pairs.last().0, pairs.last().1)
    }
}

/// Whether an entry's attribute has been read: whether it holds its cast
/// value.
pub open spec fn was_read() -> spec_fn((Name, Attribute)) -> bool {
    |entry: (Name, Attribute)| entry.1.cache() is Some
}

/// Whether an entry is stored under none of `names`.
pub open spec fn is_kept(names: Seq<Name>) -> spec_fn((Name, Attribute)) -> bool {
    |entry: (Name, Attribute)| !names.contains(entry.0)
}

/// What one read of an attribute through `host` may do: a read of the cast
/// value if `cast` is set, of the raw value if not.
pub open spec fn reads_one<H: Host>(
    before: Attribute,
    host: &H,
    after: Attribute,
    r: Result<Value, H::Error>,
    cast: bool,
) -> bool {
    if cast {
        before.reads_value(host, after, r)
    } else {
        before.reads_raw(host, after, r)
    }
}

/// What a successful read of `attribute` left in it: its cast value if
/// `cast` is set, its raw value if not.
pub open spec fn value_read(attribute: Attribute, cast: bool) -> Value {
    if cast {
        attribute.held_value()
    } else {
        attribute.key().value
    }
}

/// What reading every attribute in turn through `host` does when every read
/// succeeds: `out` holds, in order, each name with what the read of its
/// attribute returned. No entry moves and no name changes.
pub open spec fn reads_all<H: Host>(
    before: Seq<(Name, Attribute)>,
    host: &H,
    after: Seq<(Name, Attribute)>,
    out: Seq<(Name, Value)>,
    cast: bool,
) -> bool {
    &&& after.len() == before.len()
    &&& out.len() == before.len()
    &&& forall|i: int|
        #![trigger after[i]]
        #![trigger out[i]]
        0 <= i < before.len() ==> {
            &&& after[i].0 == before[i].0
            &&& out[i].0 == before[i].0
            &&& reads_one(before[i].1, host, after[i].1, Ok(out[i].1), cast)
        }
}

/// What reading every attribute in turn through `host` does when the read of
/// entry `k` fails with `e`: the entries before it have been read, the
/// entries behind it are untouched.
pub open spec fn reads_until<H: Host>(
    before: Seq<(Name, Attribute)>,
    host: &H,
    after: Seq<(Name, Attribute)>,
    k: int,
    e: H::Error,
    cast: bool,
) -> bool {
    &&& after.len() == before.len()
    &&& 0 <= k < before.len()
    &&& forall|i: int| 0 <= i < before.len() ==> (#[trigger] after[i]).0 == before[i].0
    &&& forall|i: int|
        0 <= i < k ==> reads_one(
            before[i].1,
            host,
            (#[trigger] after[i]).1,
            Ok(value_read(after[i].1, cast)),
            cast,
        )
    &&& reads_one(before[k].1, host, after[k].1, Err(e), cast)
    &&& forall|i: int| k < i < before.len() ==> #[trigger] after[i] == before[i]
}

/// Whether `s` and `t` hold equal attributes under the same names, in
/// whatever order: they hold equally many, and what `s` holds under a name
/// has the hash key of what `t` holds under it.
pub open spec fn same_entries(s: Seq<(Name, Attribute)>, t: Seq<(Name, Attribute)>) -> bool {
    &&& s.len() == t.len()
    &&& forall|i: int|
        0 <= i < s.len() ==> {
            &&& lookup(t, (#[trigger] s[i]).0) matches Some(other)
            &&& s[i].1.key() == other.key()
        }
}

/// What equality of sets goes by: the names that `s` holds, each with the
/// hash key of its attribute. The order of the entries plays no part in it.
pub open spec fn keyed(s: Seq<(Name, Attribute)>) -> Map<Name, HashKey> {
    Map::new(|name: Name| has_key(s, name), |name: Name| s[position(s, name)].1.key())
}

/// What comparing `s` with `t` through `host` has done once the first `k`
/// entries of `s` have been found equal to what `t` holds under their names,
/// and the first `touched` entries have been looked at.
///
/// Of each of the first `k` entries, and of its partner in `t`, the raw
/// value has been read, and the two have the same hash key. The entries of
/// `s` from `touched` on are as they were, and so is every entry of `t`
/// whose name is not that of one of the first `touched` entries of `s`. No
/// entry has moved and no name has changed.
pub open spec fn compared<H: Host>(
    s: Seq<(Name, Attribute)>,
    t: Seq<(Name, Attribute)>,
    host: &H,
    next_s: Seq<(Name, Attribute)>,
    next_t: Seq<(Name, Attribute)>,
    k: int,
    touched: int,
) -> bool {
    &&& next_s.len() == s.len()
    &&& next_t.len() == t.len()
    &&& 0 <= k <= touched <= s.len()
    &&& forall|i: int| 0 <= i < s.len() ==> (#[trigger] next_s[i]).0 == s[i].0
    &&& forall|j: int| 0 <= j < t.len() ==> (#[trigger] next_t[j]).0 == t[j].0
    &&& forall|i: int|
        0 <= i < k ==> {
            &&& lookup(t, (#[trigger] s[i]).0) matches Some(theirs)
            &&& lookup(next_t, s[i].0) matches Some(next_theirs)
            &&& s[i].1.compares(theirs, host, next_s[i].1, next_theirs, Ok(true))
        }
    &&& forall|i: int| touched <= i < s.len() ==> #[trigger] next_s[i] == s[i]
    &&& forall|j: int|
        0 <= j < t.len() && !has_key(s.take(touched), (#[trigger] t[j]).0) ==> next_t[j] == t[j]
}

/// What comparing `s` with `t` through `host` may do, where `k` says how far
/// the comparison got.
///
/// Sets of different sizes are unequal, and nothing is read. Otherwise the
/// entries of `s` are compared in order with what `t` holds under their
/// names. If all are equal, the sets are equal and `k` is their size. If
/// not, entry `k` is the first that `t` does not hold, that differs from its
/// partner, or at which a read fails; nothing behind it is looked at.
pub open spec fn compares<H: Host>(
    s: Seq<(Name, Attribute)>,
    t: Seq<(Name, Attribute)>,
    host: &H,
    next_s: Seq<(Name, Attribute)>,
    next_t: Seq<(Name, Attribute)>,
    k: int,
    r: Result<bool, H::Error>,
) -> bool {
    if s.len() != t.len() {
        next_s == s && next_t == t && r == Ok::<bool, H::Error>(false)
    } else if k == s.len() {
        compared(s, t, host, next_s, next_t, k, k) && r == Ok::<bool, H::Error>(true)
    } else {
        &&& 0 <= k < s.len()
        &&& compared(s, t, host, next_s, next_t, k, k + 1)
        &&& match lookup(t, s[k].0) {
            None => next_s[k] == s[k] && r == Ok::<bool, H::Error>(false),
            Some(theirs) => {
                &&& lookup(next_t, s[k].0) matches Some(next_theirs)
                &&& s[k].1.compares(theirs, host, next_s[k].1, next_theirs, r)
                &&& r != Ok::<bool, H::Error>(true)
            },
        }
    }
}

/// In a sequence without repeated names, the entry under a name is the only
/// one, so it is the one that `position` and `lookup` find.
pub proof fn lemma_position(s: Seq<(Name, Attribute)>, name: Name, i: int)
    requires
        keys_unique(s),
        0 <= i < s.len(),
        s[i].0 == name,
    ensures
        has_key(s, name),
        position(s, name) == i,
        lookup(s, name) == Some(s[i].1),
{
}

/// Storing keeps names unique. The stored attribute is then found under its
/// name, and every other name holds what it held.
pub proof fn lemma_stored(s: Seq<(Name, Attribute)>, name: Name, attribute: Attribute)
    requires
        keys_unique(s),
    ensures
        keys_unique(stored(s, name, attribute)),
        lookup(stored(s, name, attribute), name) == Some(attribute),
        forall|other: Name|
            other != name ==> #[trigger] lookup(stored(s, name, attribute), other) == lookup(
                s,
                other,
            ),
{
    let t = stored(s, name, attribute);
    if has_key(s, name) {
        let p = position(s, name);
        assert(t[p].0 == name);
        assert forall|other: Name| other != name implies #[trigger] lookup(t, other) == lookup(
            s,
            other,
        ) by {
            if has_key(s, other) {
                let q = position(s, other);
                assert(t[q] == s[q]);
            }
        }
    } else {
        let p = s.len() as int;
        assert(t[p].0 == name);
        assert forall|other: Name| other != name implies #[trigger] lookup(t, other) == lookup(
            s,
            other,
        ) by {
            if has_key(s, other) {
                let q = position(s, other);
                assert(t[q] == s[q]);
            }
        }
    }
}

/// Replacing what a name holds leaves the order of the names as it was; a
/// name that was not there comes last.
pub proof fn lemma_stored_keys(s: Seq<(Name, Attribute)>, name: Name, attribute: Attribute)
    ensures
        has_key(s, name) ==> keys(stored(s, name, attribute)) == keys(s),
        !has_key(s, name) ==> keys(stored(s, name, attribute)) == keys(s).push(name),
{
}

/// Whatever is stored one after the other, no name ends up twice.
pub proof fn lemma_built_unique(pairs: Seq<(Name, Attribute)>)
    ensures
        keys_unique(built(pairs)),
    decreases pairs.len(),
{
    if pairs.len() > 0 {
        lemma_built_unique(pairs.drop_last());
    }
}

/// Pairs that repeat no name are stored as they stand, in their order.
pub proof fn lemma_built_of_unique(pairs: Seq<(Name, Attribute)>)
    requires
        keys_unique(pairs),
    ensures
        built(pairs) == pairs,
    decreases pairs.len(),
{
    if pairs.len() > 0 {
        let front = pairs.drop_last();
        lemma_built_of_unique(front);
    }
}

/// The values that the attributes of `s` hold, entry after entry.
pub open spec fn reachable(s: Seq<(Name, Attribute)>) -> Seq<Value>
    decreases s.len(),
{
    if s.len() == 0 {
        Seq::empty()
    } else {
        reachable(s.drop_last()) + s.last().1.reachable()
    }
}

/// Whether `after` is `before` but for the attribute of entry `i`.
pub open spec fn only_differs_at(
    before: Seq<(Name, Attribute)>,
    i: int,
    after: Seq<(Name, Attribute)>,
) -> bool {
    0 <= i < before.len() && after == before.update(i, (before[i].0, after[i].1))
}

/// The names of a sequence without repeated names are as many as its
/// entries.
proof fn lemma_names(s: Seq<(Name, Attribute)>)
    requires
        keys_unique(s),
    ensures
        keys(s).to_set().finite(),
        keys(s).to_set().len() == s.len(),
        forall|name: Name| keys(s).to_set().contains(name) <==> has_key(s, name),
{
    let names = keys(s);
    names.unique_seq_to_set();
    assert forall|name: Name| names.to_set().contains(name) <==> has_key(s, name) by {
        if has_key(s, name) {
            let i = position(s, name);
            assert(names[i] == name);
        }
    }
}

/// Two sets hold equal attributes under the same names if and only if they
/// are the same as mappings from names to hash keys: it does not matter in
/// which order either holds its entries, nor which of the two is asked.
pub proof fn lemma_same_entries(s: Seq<(Name, Attribute)>, t: Seq<(Name, Attribute)>)
    requires
        keys_unique(s),
        keys_unique(t),
    ensures
        same_entries(s, t) <==> keyed(s) == keyed(t),
        same_entries(s, t) <==> same_entries(t, s),
        same_entries(s, s),
{
    lemma_names(s);
    lemma_names(t);
    if same_entries(s, t) {
        lemma_same_entries_one_way(s, t);
    }
    if same_entries(t, s) {
        lemma_same_entries_one_way(t, s);
    }
    if keyed(s) == keyed(t) {
        assert forall|name: Name| has_key(s, name) <==> has_key(t, name) by {
            assert(keyed(s).dom().contains(name) <==> keyed(t).dom().contains(name));
        }
        assert(keys(s).to_set() =~= keys(t).to_set());
        assert forall|i: int| 0 <= i < s.len() implies {
            &&& lookup(t, (#[trigger] s[i]).0) matches Some(other)
            &&& s[i].1.key() == other.key()
        } by {
            assert(keyed(s)[s[i].0] == keyed(t)[s[i].0]);
        }
    }
}

/// If `s` and `t` hold equally many entries and everything in `s` has its
/// equal in `t`, then everything in `t` has its equal in `s`, and the two are
/// the same mapping from names to hash keys.
proof fn lemma_same_entries_one_way(s: Seq<(Name, Attribute)>, t: Seq<(Name, Attribute)>)
    requires
        keys_unique(s),
        keys_unique(t),
        same_entries(s, t),
    ensures
        same_entries(t, s),
        keyed(s) == keyed(t),
{
    lemma_names(s);
    lemma_names(t);
    let mine = keys(s).to_set();
    let theirs = keys(t).to_set();
    lemma_subset_equality(mine, theirs);
    assert forall|name: Name| has_key(s, name) <==> has_key(t, name) by {}
    assert forall|j: int| 0 <= j < t.len() implies {
        &&& lookup(s, (#[trigger] t[j]).0) matches Some(other)
        &&& t[j].1.key() == other.key()
    } by {}
}

/// A set whose attributes are stored under their own names comes back from
/// its compact form as it was.
pub proof fn lemma_set_round_trip(s: Seq<(Name, Attribute)>)
    requires
        keys_unique(s),
        forall|i: int| 0 <= i < s.len() ==> (#[trigger] s[i]).1.spec_name() == s[i].0,
    ensures
        built(named(attributes(s))) == s,
{
    assert(named(attributes(s)) =~= s);
    lemma_built_of_unique(s);
}

/// The attribute that takes the place of `current` when it is reset.
pub open spec fn reset_of(current: Attribute) -> Attribute {
    Attribute::Uninitialized { name: current.spec_name(), ty: current.spec_ty() }
}

/// `s` after the entry under `name` has been reset, if there is one.
pub open spec fn reset_in(s: Seq<(Name, Attribute)>, name: Name) -> Seq<(Name, Attribute)> {
    match lookup(s, name) {
        Some(current) => stored(s, name, reset_of(current)),
        None => s,
    }
}

/// After a reset, what the name holds is uninitialized, with the name and
/// type that the attribute had; the names stand as they stood.
pub proof fn lemma_reset(s: Seq<(Name, Attribute)>, name: Name)
    requires
        keys_unique(s),
    ensures
        keys(reset_in(s, name)) == keys(s),
        keys_unique(reset_in(s, name)),
        match lookup(s, name) {
            Some(current) => lookup(reset_in(s, name), name) == Some(reset_of(current))
                && reset_of(current) is Uninitialized,
            None => lookup(reset_in(s, name), name) is None,
        },
{
    match lookup(s, name) {
        Some(current) => {
            lemma_stored(s, name, reset_of(current));
        },
        None => {},
    }
}

/// An attribute whose cast value was read in its place is among the entries
/// that count as read, and no other entry counts differently than before.
pub proof fn lemma_read_is_accessed<H: Host>(
    before: Seq<(Name, Attribute)>,
    host: &H,
    i: int,
    after: Seq<(Name, Attribute)>,
    v: Value,
)
    requires
        0 <= i < before.len(),
        after == before.update(i, (before[i].0, after[i].1)),
        before[i].1 is Populated,
        before[i].1.reads_value(host, after[i].1, Ok(v)),
    ensures
        keys(after.filter(was_read())).contains(before[i].0),
        forall|j: int|
            0 <= j < before.len() && j != i ==> was_read()(#[trigger] after[j]) == was_read()(
                before[j],
            ),
{
    let read = after.filter(was_read());
    after.lemma_filter_contains(was_read(), i);
    let k = choose|k: int| 0 <= k < read.len() && read[k] == after[i];
    assert(keys(read)[k] == before[i].0);
}

/// Leaving out one name that the set holds leaves out its entry and nothing
/// else: the other entries follow each other as before.
pub proof fn lemma_except_one(s: Seq<(Name, Attribute)>, name: Name)
    requires
        keys_unique(s),
        has_key(s, name),
    ensures
        s.filter(is_kept(seq![name])) == s.remove(position(s, name)),
    decreases s.len(),
{
    reveal(Seq::filter);
    let p = position(s, name);
    let front = s.drop_last();
    assert(seq![name].contains(name)) by {
        assert(seq![name][0] == name);
    }
    if p == s.len() - 1 {
        lemma_except_none(front, name);
    } else {
        assert(front[p].0 == name);
        lemma_except_one(front, name);
    }
}

/// Leaving out a name that the set does not hold leaves out nothing.
pub proof fn lemma_except_none(s: Seq<(Name, Attribute)>, name: Name)
    requires
        !has_key(s, name),
    ensures
        s.filter(is_kept(seq![name])) == s,
    decreases s.len(),
{
    reveal(Seq::filter);
    if s.len() > 0 {
        let front = s.drop_last();
        lemma_except_none(front, name);
    }
}

} // verus!
