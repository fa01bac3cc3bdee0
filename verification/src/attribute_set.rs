//! The attributes of one record, in order, under their names.

use crate::attribute::Attribute;
use crate::attribute_set::model::{
    attributes,
    built,
    compared,
    compares,
    is_kept,
    keyed,
    keys,
    keys_unique,
    lemma_built_unique,
    lemma_same_entries,
    lemma_stored,
    lookup,
    named,
    only_differs_at,
    position,
    reachable,
    reads_all,
    reads_one,
    reads_until,
    reset_in,
    reset_of,
    stored,
    value_read,
    was_read,
};
use crate::attribute_set::ordered::{entries, has_key};
use crate::host::Host;
use crate::value::{Name, Value};
use indexmap::IndexMap;
use vstd::pervasive::unreached;
use vstd::prelude::*;

pub mod model;
pub mod ordered;

verus! {

/// Where the attributes of a serialized set come from: a mapping from names
/// to attributes, or something that fills such a mapping in when asked.
pub trait Materialize {
    /// The mapping, as pairs of a name and its attribute.
    fn materialize(self) -> Vec<(Name, Attribute)>;
}

impl Materialize for Vec<(Name, Attribute)> {
    /// A mapping that is there already is handed on as it is.
    fn materialize(self) -> (pairs: Vec<(Name, Attribute)>)
        ensures
            pairs == self,
    {
        self
    }
}

/// An ordered mapping from names to attributes.
///
/// A name occurs once. Writing under a name that the set holds replaces the
/// attribute in its place; a new name comes last. The set owns its
/// attributes.
#[derive(Debug)]
pub struct AttributeSet {
    attributes: IndexMap<Name, Attribute>,
}

impl AttributeSet {
    /// The entries of the set, in its order.
    pub closed spec fn view(&self) -> Seq<(Name, Attribute)> {
        entries(self.attributes)
    }

    /// What holds of every set: no name occurs twice.
    pub open spec fn wf(&self) -> bool {
        keys_unique(self@)
    }

    /// A set without attributes.
    pub fn new() -> (set: AttributeSet)
        ensures
            set.wf(),
            set@ == Seq::<(Name, Attribute)>::empty(),
    {
        AttributeSet { attributes: ordered::new_map() }
    }

    /// The set that storing copies of `pairs`, one after the other, leaves.
    pub fn from_mapping(pairs: &Vec<(Name, Attribute)>) -> (set: AttributeSet)
        ensures
            set.wf(),
            set@ == built(pairs@),
    {
        let mut set = AttributeSet::new();
        let _ = ordered::try_reserve(&mut set.attributes, pairs.len());
        let mut i: usize = 0;
        while i < pairs.len()
            invariant
                i <= pairs.len(),
                set@ == built(pairs@.take(i as int)),
            decreases pairs.len() - i,
        {
            proof {
                lemma_built_unique(pairs@.take(i as int));
                assert(pairs@.take(i + 1).drop_last() == pairs@.take(i as int));
            }
            set.set(pairs[i].0, pairs[i].1.clone());
            i += 1;
        }
        proof {
            assert(pairs@.take(i as int) == pairs@);
            lemma_built_unique(pairs@);
        }
        set
    }

    /// The set that the compact form `all` stands for: copies of the
    /// attributes, stored one after the other, each under its own name.
    pub fn load_data(all: &Vec<Attribute>) -> (set: AttributeSet)
        ensures
            set.wf(),
            set@ == built(named(all@)),
    {
        let mut set = AttributeSet::new();
        let _ = ordered::try_reserve(&mut set.attributes, all.len());
        let mut i: usize = 0;
        while i < all.len()
            invariant
                i <= all.len(),
                set@ == built(named(all@).take(i as int)),
            decreases all.len() - i,
        {
            proof {
                lemma_built_unique(named(all@).take(i as int));
                assert(named(all@).take(i + 1).drop_last() == named(all@).take(i as int));
            }
            set.set(all[i].name(), all[i].clone());
            i += 1;
        }
        proof {
            assert(named(all@).take(i as int) == named(all@));
            lemma_built_unique(named(all@));
        }
        set
    }

    /// The set that a serialized set stands for: what `attributes` yields is
    /// stored as by [`AttributeSet::from_mapping`].
    pub fn init_with<M: Materialize>(attributes: M) -> (set: AttributeSet)
        ensures
            set.wf(),
            exists|pairs: Vec<(Name, Attribute)>| #[trigger]
                call_ensures(M::materialize, (attributes,), pairs) && set@ == built(pairs@),
    {
        let pairs = attributes.materialize();
        AttributeSet::from_mapping(&pairs)
    }

    /// An independent copy: the same names in the same order, each with a
    /// copy of its attribute.
    pub fn deep_dup(&self) -> (copy: AttributeSet)
        requires
            self.wf(),
        ensures
            copy.wf(),
            copy@ == self@,
    {
        let n = self.len();
        let mut copy = AttributeSet::new();
        let _ = ordered::try_reserve(&mut copy.attributes, n);
        let mut i: usize = 0;
        while i < n
            invariant
                n == self@.len(),
                i <= n,
                self.wf(),
                copy.wf(),
                copy@ == self@.take(i as int),
            decreases n - i,
        {
            match ordered::get_index(&self.attributes, i) {
                Some((name, attribute)) => {
                    copy.set(name, attribute.clone());
                },
                None => unreached(),
            }
            i += 1;
        }
        copy
    }

    /// Makes this set an independent copy of `other`.
    pub fn initialize_copy(&mut self, other: &AttributeSet)
        requires
            other.wf(),
        ensures
            final(self).wf(),
            final(self)@ == other@,
    {
        *self = other.deep_dup();
    }

    /// How many attributes the set holds.
    pub fn len(&self) -> (n: usize)
        ensures
            n == self@.len(),
    {
        ordered::len(&self.attributes)
    }

    /// Whether the set holds an attribute under `name`.
    pub fn has_key(&self, name: Name) -> (b: bool)
        ensures
            b == has_key(self@, name),
    {
        ordered::contains_key(&self.attributes, name)
    }

    /// The names, in the set's order.
    pub fn keys(&self) -> (names: Vec<Name>)
        ensures
            names@ == keys(self@),
    {
        let n = self.len();
        let mut names: Vec<Name> = Vec::new();
        let mut i: usize = 0;
        while i < n
            invariant
                n == self@.len(),
                i <= n,
                names@ == keys(self@).take(i as int),
            decreases n - i,
        {
            match ordered::get_index(&self.attributes, i) {
                Some((name, _)) => {
                    names.push(name);
                },
                None => unreached(),
            }
            i += 1;
        }
        names
    }

    /// Copies of the attributes, in the set's order.
    pub fn values(&self) -> (all: Vec<Attribute>)
        ensures
            all@ == attributes(self@),
    {
        let n = self.len();
        let mut all: Vec<Attribute> = Vec::new();
        let mut i: usize = 0;
        while i < n
            invariant
                n == self@.len(),
                i <= n,
                all@ == attributes(self@).take(i as int),
            decreases n - i,
        {
            match ordered::get_index(&self.attributes, i) {
                Some((_, attribute)) => {
                    all.push(attribute.clone());
                },
                None => unreached(),
            }
            i += 1;
        }
        all
    }

    /// The attributes in compact form: copies of them in the set's order,
    /// each carrying its own name.
    pub fn dump_data(&self) -> (all: Vec<Attribute>)
        ensures
            all@ == attributes(self@),
    {
        self.values()
    }

    /// The names of the attributes that have been read, in the set's order.
    pub fn accessed(&self) -> (names: Vec<Name>)
        ensures
            names@ == keys(self@.filter(was_read())),
    {
        let n = self.len();
        let mut names: Vec<Name> = Vec::new();
        let mut i: usize = 0;
        while i < n
            invariant
                n == self@.len(),
                i <= n,
                names@ == keys(self@.take(i as int).filter(was_read())),
            decreases n - i,
        {
            match ordered::get_index(&self.attributes, i) {
                Some((name, attribute)) => {
                    proof {
                        reveal(Seq::filter);
                        assert(self@.take(i + 1).drop_last() == self@.take(i as int));
                    }
                    if attribute.has_been_read() {
                        names.push(name);
                    }
                },
                None => unreached(),
            }
            i += 1;
        }
        proof {
            assert(self@.take(n as int) == self@);
        }
        names
    }

    /// Copies of the entries that are stored under none of `names`, in the
    /// set's order. The set stays as it is.
    pub fn except(&self, names: &Vec<Name>) -> (rest: Vec<(Name, Attribute)>)
        ensures
            rest@ == self@.filter(is_kept(names@)),
    {
        let n = self.len();
        let mut rest: Vec<(Name, Attribute)> = Vec::new();
        let mut i: usize = 0;
        while i < n
            invariant
                n == self@.len(),
                i <= n,
                rest@ == self@.take(i as int).filter(is_kept(names@)),
            decreases n - i,
        {
            match ordered::get_index(&self.attributes, i) {
                Some((name, attribute)) => {
                    proof {
                        reveal(Seq::filter);
                        assert(self@.take(i + 1).drop_last() == self@.take(i as int));
                    }
                    if !contains_name(names, name) {
                        rest.push((name, attribute.clone()));
                    }
                },
                None => unreached(),
            }
            i += 1;
        }
        proof {
            assert(self@.take(n as int) == self@);
        }
        rest
    }

    /// Appends to `marked` the values that the attributes of the set hold,
    /// entry after entry.
    pub fn mark(&self, marked: &mut Vec<Value>)
        ensures
            final(marked)@ == old(marked)@ + reachable(self@),
    {
        let n = self.len();
        let mut i: usize = 0;
        while i < n
            invariant
                n == self@.len(),
                i <= n,
                marked@ == old(marked)@ + reachable(self@.take(i as int)),
            decreases n - i,
        {
            match ordered::get_index(&self.attributes, i) {
                Some((_, attribute)) => {
                    proof {
                        assert(self@.take(i + 1).drop_last() == self@.take(i as int));
                    }
                    attribute.mark(marked);
                },
                None => unreached(),
            }
            i += 1;
        }
        proof {
            assert(self@.take(n as int) == self@);
        }
    }

    /// A copy of the attribute under `name`. Where the set holds none, the
    /// host's placeholder for `name` takes its place, so the caller need not
    /// ask first whether the name is there.
    pub fn get<H: Host>(&self, name: Name, host: &H) -> (r: Result<Attribute, H::Error>)
        requires
            self.wf(),
        ensures
            match lookup(self@, name) {
                Some(attribute) => r == Ok::<Attribute, H::Error>(attribute),
                None => call_ensures(H::null_attribute, (host, name), r),
            },
    {
        match ordered::get(&self.attributes, name) {
            Some(attribute) => {
                Ok(attribute.clone())
            },
            None => host.null_attribute(name),
        }
    }

    /// A copy of the attribute under `name`, or what `on_missing` returns
    /// where the set holds none. The set stays as it is.
    pub fn fetch<F: FnOnce() -> Attribute>(&self, name: Name, on_missing: F) -> (r: Attribute)
        requires
            self.wf(),
            !has_key(self@, name) ==> call_requires(on_missing, ()),
        ensures
            match lookup(self@, name) {
                Some(attribute) => r == attribute,
                None => call_ensures(on_missing, (), r),
            },
    {
        match ordered::get(&self.attributes, name) {
            Some(attribute) => {
                attribute.clone()
            },
            None => on_missing(),
        }
    }

    /// The attribute under `name`, lent in its place: what the borrower
    /// leaves in it is what the set holds afterwards. No other entry changes,
    /// nor the name, nor the order.
    pub fn get_mut(&mut self, name: Name) -> (r: Option<&mut Attribute>)
        requires
            old(self).wf(),
        ensures
            final(self).wf(),
            match r {
                Some(attribute) => {
                    let i = position(old(self)@, name);
                    &&& lookup(old(self)@, name) == Some(*attribute)
                    &&& 0 <= i < old(self)@.len()
                    &&& final(self)@ == old(self)@.update(i, (name, *final(attribute)))
                },
                None => !has_key(old(self)@, name) && final(self)@ == old(self)@,
            },
    {
        ordered::get_mut(&mut self.attributes, name)
    }

    /// The entry at place `index`, counted from 0 in the set's order, with
    /// its attribute lent in its place; `None` past the last entry.
    pub fn get_index_mut(&mut self, index: usize) -> (r: Option<(Name, &mut Attribute)>)
        requires
            old(self).wf(),
        ensures
            final(self).wf(),
            match r {
                Some((name, attribute)) => {
                    &&& index < old(self)@.len()
                    &&& old(self)@[index as int] == (name, *attribute)
                    &&& final(self)@ == old(self)@.update(index as int, (name, *final(attribute)))
                },
                None => index >= old(self)@.len() && final(self)@ == old(self)@,
            },
    {
        ordered::get_index_mut(&mut self.attributes, index)
    }

    /// Stores `attribute` under `name`: in the place of the attribute that
    /// the name held, or last if the name is new.
    pub fn set(&mut self, name: Name, attribute: Attribute)
        requires
            old(self).wf(),
        ensures
            final(self).wf(),
            final(self)@ == stored(old(self)@, name, attribute),
            lookup(final(self)@, name) == Some(attribute),
            forall|other: Name|
                other != name ==> #[trigger] lookup(final(self)@, other) == lookup(
                    old(self)@,
                    other,
                ),
            keys(final(self)@) == if has_key(old(self)@, name) {
                keys(old(self)@)
            } else {
                keys(old(self)@).push(name)
            },
    {
        ordered::insert(&mut self.attributes, name, attribute);
        proof {
            lemma_stored(old(self)@, name, attribute);
        }
    }

    /// Stores under `name` what the attribute there becomes when storage
    /// gives `value` for it. Where the set holds no such attribute, the
    /// host's placeholder for `name` stands in for it; if the host fails to
    /// give one, the set stays as it is.
    pub fn write_from_database<H: Host>(&mut self, name: Name, value: Value, host: &H) -> (r:
        Result<(), H::Error>)
        requires
            old(self).wf(),
        ensures
            final(self).wf(),
            match lookup(old(self)@, name) {
                Some(current) => r is Ok && final(self)@ == stored(
                    old(self)@,
                    name,
                    current.spec_with_value_from_database(value),
                ),
                None => match r {
                    Ok(_) => exists|null: Attribute| #[trigger]
                        call_ensures(H::null_attribute, (host, name), Ok(null)) && final(self)@
                            == stored(old(self)@, name, null.spec_with_value_from_database(value)),
                    Err(e) => call_ensures(H::null_attribute, (host, name), Err(e))
                        && final(self)@ == old(self)@,
                },
            },
    {
        match self.get(name, host) {
            Ok(current) => {
                self.set(name, current.with_value_from_database(value));
                Ok(())
            },
            Err(e) => Err(e),
        }
    }

    /// Stores under `name` what the attribute there becomes when the caller
    /// assigns `value` to it; the new attribute remembers the one it
    /// replaces. A missing attribute is handled as in
    /// [`AttributeSet::write_from_database`].
    pub fn write_from_user<H: Host>(&mut self, name: Name, value: Value, host: &H) -> (r: Result<
        (),
        H::Error,
    >)
        requires
            old(self).wf(),
        ensures
            final(self).wf(),
            match lookup(old(self)@, name) {
                Some(current) => r is Ok && final(self)@ == stored(
                    old(self)@,
                    name,
                    current.spec_with_value_from_user(value),
                ),
                None => match r {
                    Ok(_) => exists|null: Attribute| #[trigger]
                        call_ensures(H::null_attribute, (host, name), Ok(null)) && final(self)@
                            == stored(old(self)@, name, null.spec_with_value_from_user(value)),
                    Err(e) => call_ensures(H::null_attribute, (host, name), Err(e))
                        && final(self)@ == old(self)@,
                },
            },
    {
        match self.get(name, host) {
            Ok(current) => {
                self.set(name, current.with_value_from_user(value));
                Ok(())
            },
            Err(e) => Err(e),
        }
    }

    /// Stores under `name` the attribute that holds `value` already cast,
    /// with the name and type of the attribute there. A missing attribute is
    /// handled as in [`AttributeSet::write_from_database`].
    pub fn write_cast_value<H: Host>(&mut self, name: Name, value: Value, host: &H) -> (r: Result<
        (),
        H::Error,
    >)
        requires
            old(self).wf(),
        ensures
            final(self).wf(),
            match lookup(old(self)@, name) {
                Some(current) => r is Ok && final(self)@ == stored(
                    old(self)@,
                    name,
                    current.spec_with_cast_value(value),
                ),
                None => match r {
                    Ok(_) => exists|null: Attribute| #[trigger]
                        call_ensures(H::null_attribute, (host, name), Ok(null)) && final(self)@
                            == stored(old(self)@, name, null.spec_with_cast_value(value)),
                    Err(e) => call_ensures(H::null_attribute, (host, name), Err(e))
                        && final(self)@ == old(self)@,
                },
            },
    {
        match self.get(name, host) {
            Ok(current) => {
                self.set(name, current.with_cast_value(value));
                Ok(())
            },
            Err(e) => Err(e),
        }
    }

    /// Puts an uninitialized attribute of the same name and type in the
    /// place of the attribute under `name`; its value and lineage are gone.
    /// A set that holds nothing under `name` stays as it is.
    pub fn reset(&mut self, name: Name)
        requires
            old(self).wf(),
        ensures
            final(self).wf(),
            final(self)@ == reset_in(old(self)@, name),
            keys(final(self)@) == keys(old(self)@),
            lookup(final(self)@, name) == match lookup(old(self)@, name) {
                Some(current) => Some(reset_of(current)),
                None => None,
            },
    {
        let fresh = match ordered::get(&self.attributes, name) {
            Some(current) => {
                Attribute::uninitialized(current.name(), current.ty())
            },
            None => { return ; },
        };
        self.set(name, fresh);
    }

    /// The cast value of the attribute under `name`, read in its place, or
    /// `None` where the set holds no such attribute. No placeholder is made.
    pub fn fetch_value<H: Host>(&mut self, name: Name, host: &H) -> (r: Result<
        Option<Value>,
        H::Error,
    >)
        requires
            old(self).wf(),
        ensures
            final(self).wf(),
            match lookup(old(self)@, name) {
                None => r == Ok::<Option<Value>, H::Error>(None) && final(self)@ == old(self)@,
                Some(attribute) => {
                    let i = position(old(self)@, name);
                    &&& only_differs_at(old(self)@, i, final(self)@)
                    &&& match r {
                        Ok(Some(v)) => attribute.reads_value(host, final(self)@[i].1, Ok(v)),
                        Ok(None) => false,
                        Err(e) => attribute.reads_value(host, final(self)@[i].1, Err(e)),
                    }
                },
            },
    {
        match self.get_mut(name) {
            Some(attribute) => match attribute.value(host) {
                Ok(v) => Ok(Some(v)),
                Err(e) => Err(e),
            },
            None => Ok(None),
        }
    }

    /// Reads every attribute in its place, in the set's order: the cast value
    /// if `cast` is set, the raw value if not. Stops at the first read that
    /// fails.
    fn read_each<H: Host>(&mut self, host: &H, cast: bool) -> (r: Result<
        Vec<(Name, Value)>,
        H::Error,
    >)
        requires
            old(self).wf(),
        ensures
            final(self).wf(),
            match r {
                Ok(out) => reads_all(old(self)@, host, final(self)@, out@, cast),
                Err(e) => exists|k: int| reads_until(old(self)@, host, final(self)@, k, e, cast),
            },
    {
        let n = self.len();
        let mut out: Vec<(Name, Value)> = Vec::new();
        let mut i: usize = 0;
        while i < n
            invariant
                self.wf(),
                n == old(self)@.len(),
                self@.len() == n,
                i <= n,
                out@.len() == i,
                forall|j: int| 0 <= j < n ==> (#[trigger] self@[j]).0 == old(self)@[j].0,
                forall|j: int|
                    #![trigger out@[j]]
                    #![trigger self@[j]]
                    0 <= j < i ==> {
                        &&& out@[j].0 == old(self)@[j].0
                        &&& reads_one(old(self)@[j].1, host, self@[j].1, Ok(out@[j].1), cast)
                        &&& out@[j].1 == value_read(self@[j].1, cast)
                    },
                forall|j: int| i <= j < n ==> #[trigger] self@[j] == old(self)@[j],
            decreases n - i,
        {
            let (name, r) = match self.get_index_mut(i) {
                Some((name, attribute)) => {
                    let r = if cast {
                        attribute.value(host)
                    } else {
                        attribute.value_before_type_cast(host)
                    };
                    (name, r)
                },
                None => unreached(),
            };
            match r {
                Ok(v) => {
                    out.push((name, v));
                },
                Err(e) => {
                    let failed: Result<Vec<(Name, Value)>, H::Error> = Err(e);
                    assert(failed matches Err(e) ==> reads_until(
                        old(self)@,
                        host,
                        self@,
                        i as int,
                        e,
                        cast,
                    ));
                    return failed;
                },
            }
            i += 1;
        }
        Ok(out)
    }

    /// Every name with the raw value of its attribute, in the set's order.
    /// Runs the producers of deferred defaults that have not run yet; casts
    /// nothing. Stops at the first read that fails.
    pub fn values_before_type_cast<H: Host>(&mut self, host: &H) -> (r: Result<
        Vec<(Name, Value)>,
        H::Error,
    >)
        requires
            old(self).wf(),
        ensures
            final(self).wf(),
            match r {
                Ok(out) => reads_all(old(self)@, host, final(self)@, out@, false),
                Err(e) => exists|k: int| reads_until(old(self)@, host, final(self)@, k, e, false),
            },
    {
        self.read_each(host, false)
    }

    /// Every name with the cast value of its attribute, in the set's order.
    /// Every attribute counts as read afterwards. Stops at the first read
    /// that fails.
    pub fn to_hash<H: Host>(&mut self, host: &H) -> (r: Result<Vec<(Name, Value)>, H::Error>)
        requires
            old(self).wf(),
        ensures
            final(self).wf(),
            match r {
                Ok(out) => reads_all(old(self)@, host, final(self)@, out@, true),
                Err(e) => exists|k: int| reads_until(old(self)@, host, final(self)@, k, e, true),
            },
    {
        self.read_each(host, true)
    }

    /// The set in which every attribute is replaced by what `transform` makes
    /// of it: the same names in the same order.
    pub fn map<F: Fn(&Attribute) -> Attribute>(&self, transform: F) -> (mapped: AttributeSet)
        requires
            self.wf(),
            forall|i: int|
                0 <= i < self@.len() ==> call_requires(transform, (&(#[trigger] self@[i]).1,)),
        ensures
            mapped.wf(),
            mapped@.len() == self@.len(),
            forall|i: int|
                0 <= i < self@.len() ==> {
                    &&& (#[trigger] mapped@[i]).0 == self@[i].0
                    &&& call_ensures(transform, (&self@[i].1,), mapped@[i].1)
                },
    {
        let n = self.len();
        let mut mapped = AttributeSet::new();
        let _ = ordered::try_reserve(&mut mapped.attributes, n);
        let mut i: usize = 0;
        while i < n
            invariant
                n == self@.len(),
                i <= n,
                self.wf(),
                mapped.wf(),
                mapped@.len() == i,
                forall|j: int|
                    0 <= j < self@.len() ==> call_requires(transform, (&(#[trigger] self@[j]).1,)),
                forall|j: int|
                    0 <= j < i ==> {
                        &&& (#[trigger] mapped@[j]).0 == self@[j].0
                        &&& call_ensures(transform, (&self@[j].1,), mapped@[j].1)
                    },
            decreases n - i,
        {
            match ordered::get_index(&self.attributes, i) {
                Some((name, attribute)) => {
                    let fresh = transform(attribute);
                    mapped.set(name, fresh);
                },
                None => unreached(),
            }
            i += 1;
        }
        mapped
    }

    /// Whether the two sets hold equal attributes under the same names:
    /// whether they are the same mapping from names to hash keys. The order
    /// of the entries plays no part.
    ///
    /// Sets of different sizes are unequal, and nothing is read. Otherwise
    /// the attributes of `self` are compared in order with what `other` holds
    /// under their names, which reads the raw values of both, until a name is
    /// missing, two attributes differ or a read fails.
    pub fn equals<H: Host>(&mut self, other: &mut AttributeSet, host: &H) -> (r: Result<
        bool,
        H::Error,
    >)
        requires
            old(self).wf(),
            old(other).wf(),
        ensures
            final(self).wf(),
            final(other).wf(),
            r matches Ok(b) ==> b == (keyed(final(self)@) == keyed(final(other)@)),
            exists|k: int|
                compares(old(self)@, old(other)@, host, final(self)@, final(other)@, k, r),
    {
        let n = self.len();
        if n != other.len() {
            proof {
                lemma_same_entries(self@, other@);
                assert(compares(old(self)@, old(other)@, host, self@, other@, 0, Ok(false)));
            }
            return Ok(false);
        }
        let mut i: usize = 0;
        while i < n
            invariant
                self.wf(),
                other.wf(),
                old(self).wf(),
                old(other).wf(),
                n == old(self)@.len(),
                n == old(other)@.len(),
                i <= n,
                compared(old(self)@, old(other)@, host, self@, other@, i as int, i as int),
            decreases n - i,
        {
            let ghost theirs_before = other@;
            let ghost name = old(self)@[i as int].0;
            proof {
                assert(!has_key(old(self)@.take(i as int), name));
            }
            let compared = match self.get_index_mut(i) {
                Some((name, mine)) => match other.get_mut(name) {
                    Some(theirs) => Some(mine.equals(theirs, host)),
                    None => None,
                },
                None => unreached(),
            };
            proof {
                let first = old(self)@;
                let second = old(other)@;
                assert forall|other_name: Name|
                    has_key(first.take(i + 1), other_name) <==> other_name == name || has_key(
                        first.take(i as int),
                        other_name,
                    ) by {
                    if other_name == name {
                        assert(first.take(i + 1)[i as int].0 == name);
                    }
                }
                if compared is Some {
                    let p = position(theirs_before, name);
                    lemma_stored(theirs_before, name, other@[p].1);
                    assert forall|j: int| 0 <= j < i implies {
                        &&& lookup(second, (#[trigger] first[j]).0) matches Some(theirs)
                        &&& lookup(other@, first[j].0) matches Some(next_theirs)
                        &&& first[j].1.compares(theirs, host, self@[j].1, next_theirs, Ok(true))
                    } by {}
                }
            }
            match compared {
                None => {
                    proof {
                        lemma_same_entries(self@, other@);
                        assert(compares(
                            old(self)@,
                            old(other)@,
                            host,
                            self@,
                            other@,
                            i as int,
                            Ok(false),
                        ));
                    }
                    return Ok(false);
                },
                Some(Err(e)) => {
                    let failed: Result<bool, H::Error> = Err(e);
                    assert(compares(old(self)@, old(other)@, host, self@, other@, i as int, failed));
                    return failed;
                },
                Some(Ok(false)) => {
                    proof {
                        lemma_same_entries(self@, other@);
                        assert(compares(
                            old(self)@,
                            old(other)@,
                            host,
                            self@,
                            other@,
                            i as int,
                            Ok(false),
                        ));
                    }
                    return Ok(false);
                },
                Some(Ok(true)) => {},
            }
            i += 1;
        }
        proof {
            lemma_same_entries(self@, other@);
            assert forall|j: int| 0 <= j < n implies {
                &&& lookup(other@, (#[trigger] self@[j]).0) matches Some(theirs)
                &&& self@[j].1.key() == theirs.key()
            } by {}
            assert(compares(old(self)@, old(other)@, host, self@, other@, n as int, Ok(true)));
        }
        Ok(true)
    }
}

impl Default for AttributeSet {
    /// A set without attributes.
    fn default() -> (set: AttributeSet)
        ensures
            set.wf(),
            set@ == Seq::<(Name, Attribute)>::empty(),
    {
        AttributeSet::new()
    }
}

/// Whether `name` is among `names`.
fn contains_name(names: &Vec<Name>, name: Name) -> (b: bool)
    ensures
        b == names@.contains(name),
{
    let mut i: usize = 0;
    while i < names.len()
        invariant
            i <= names.len(),
            forall|j: int| 0 <= j < i ==> names@[j] != name,
        decreases names.len() - i,
    {
        if names[i] == name {
            return true;
        }
        i += 1;
    }
    false
}

} // verus!
