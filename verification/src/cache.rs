//! The label cache: the dynamic value of each label that was asked for, kept
//! so that it is built once.
//!
//! The cache is an object of its own, made by its user and handed to those
//! who need it. It sits on a hash map with the FNV hasher.

use crate::value::{Value, ValueView};
use fnv::FnvHashMap;
use vstd::prelude::*;

verus! {

/// The FNV hasher of the `fnv` crate, carried through as an opaque type.
#[verifier::external_type_specification]
#[verifier::external_body]
pub struct ExFnvHasher(fnv::FnvHasher);

/// The standard library's builder of default-constructed hashers, carried
/// through as an opaque type.
#[verifier::external_type_specification]
#[verifier::external_body]
#[verifier::reject_recursive_types(H)]
pub struct ExBuildHasherDefault<H>(std::hash::BuildHasherDefault<H>);

/// What a map from labels to values holds: for each key, by its characters,
/// the view of the value stored under it.
pub uninterp spec fn cached(map: FnvHashMap<String, Value>) -> Map<Seq<char>, ValueView>;

/// The map that holds nothing.
pub open spec fn no_labels() -> Map<Seq<char>, ValueView> {
    Map::empty()
}

/// `FnvHashMap::default`: a map that holds nothing.
#[verifier::external_body]
fn fnv_map_new() -> (made: FnvHashMap<String, Value>)
    ensures
        cached(made) == no_labels(),
{
    FnvHashMap::default()
}

/// `HashMap::get` with a string key: the value stored under the key, or
/// nothing where the map has no such key. The map stays as it is.
#[verifier::external_body]
fn fnv_map_get<'a>(map: &'a FnvHashMap<String, Value>, key: &str) -> (found: Option<&'a Value>)
    ensures
        match found {
            Some(value) => cached(*map).contains_key(key@) && cached(*map)[key@] == value@,
            None => !cached(*map).contains_key(key@),
        },
{
    map.get(key)
}

/// `HashMap::insert`: afterwards the map holds `value` under `key`, in place
/// of what it held there, and everything else as before.
#[verifier::external_body]
fn fnv_map_insert(map: &mut FnvHashMap<String, Value>, key: String, value: Value)
    ensures
        cached(*final(map)) == cached(*old(map)).insert(key@, value@),
{
    map.insert(key, value);
}

/// The dynamic values of the labels asked for so far.
pub struct LabelCache {
    labels: FnvHashMap<String, Value>,
}

impl LabelCache {
    /// What the cache holds: for each label asked for, its dynamic value.
    pub closed spec fn entries(&self) -> Map<Seq<char>, ValueView> {
        cached(self.labels)
    }

    /// Whether every label in the cache has its own text as its value. This
    /// holds of a new cache and is kept by every use of it.
    pub open spec fn wf(&self) -> bool {
        forall|label: Seq<char>| #[trigger]
            self.entries().contains_key(label) ==> self.entries()[label] == ValueView::String(
                label,
            )
    }

    /// A cache that holds nothing.
    pub fn new() -> (cache: LabelCache)
        ensures
            cache.wf(),
            cache.entries() == no_labels(),
    {
        LabelCache { labels: fnv_map_new() }
    }

    /// Whether the cache holds the label.
    pub fn contains(&self, label: &str) -> (held: bool)
        ensures
            held == self.entries().contains_key(label@),
    {
        fnv_map_get(&self.labels, label).is_some()
    }

    /// The dynamic value of a label: taken from the cache where the label was
    /// asked for before, and else built and put into the cache.
    pub fn label(&mut self, label: &str) -> (value: Value)
        requires
            old(self).wf(),
        ensures
            value@ == ValueView::String(label@),
            final(self).wf(),
            final(self).entries() == old(self).entries().insert(
                label@,
                ValueView::String(label@),
            ),
    {
        match fnv_map_get(&self.labels, label) {
            Some(found) => found.duplicate(),
            None => {
                let value = Value::String(label.to_owned());
                fnv_map_insert(&mut self.labels, label.to_owned(), value.duplicate());
                value
            },
        }
    }
}

} // verus!
