//! The dynamic value that declared types are converted to and from: a tree
//! of null, booleans, numbers, strings, sequences and string-keyed mappings.

use crate::token::str_eq;
use vstd::prelude::*;

verus! {

/// A dynamic value.
#[derive(Debug, PartialEq, Eq)]
pub enum Value {
    /// Nothing: what an empty optional is written as.
    Null,
    Bool(bool),
    /// A whole number.
    Number(i128),
    /// A number that is not whole, as the bits of a double. It is carried
    /// along and never computed with.
    Float(u64),
    String(String),
    Array(Vec<Value>),
    Object(Object),
}

/// A mapping from strings to values. The entries keep the order in which
/// their keys were first set, and every key occurs once.
#[derive(Debug, PartialEq, Eq)]
pub struct Object {
    pub entries: Vec<(String, Value)>,
}

/// The mathematical value behind a [`Value`].
pub enum ValueView {
    Null,
    Bool(bool),
    Number(int),
    Float(u64),
    String(Seq<char>),
    Array(Seq<ValueView>),
    Object(Seq<(Seq<char>, ValueView)>),
}

/// The views of `items`, in order.
pub open spec fn items_view(items: Seq<Value>) -> Seq<ValueView>
    decreases items, 1nat,
{
    Seq::new(
        items.len(),
        |i: int|
            if 0 <= i < items.len() {
                value_view(items[i])
            } else {
                ValueView::Null
            },
    )
}

/// The views of `entries`, in order.
pub open spec fn entries_view(entries: Seq<(String, Value)>) -> Seq<(Seq<char>, ValueView)>
    decreases entries, 1nat,
{
    Seq::new(
        entries.len(),
        |i: int|
            if 0 <= i < entries.len() {
                (entries[i].0@, value_view(entries[i].1))
            } else {
                (Seq::empty(), ValueView::Null)
            },
    )
}

/// The view of `value`.
pub open spec fn value_view(value: Value) -> ValueView
    decreases value, 0nat,
{
    match value {
        Value::Null => ValueView::Null,
        Value::Bool(b) => ValueView::Bool(b),
        Value::Number(n) => ValueView::Number(n as int),
        Value::Float(bits) => ValueView::Float(bits),
        Value::String(text) => ValueView::String(text@),
        Value::Array(items) => ValueView::Array(items_view(items@)),
        Value::Object(object) => ValueView::Object(entries_view(object.entries@)),
    }
}

impl View for Value {
    type V = ValueView;

    open spec fn view(&self) -> ValueView {
        value_view(*self)
    }
}

impl View for Object {
    type V = Seq<(Seq<char>, ValueView)>;

    open spec fn view(&self) -> Seq<(Seq<char>, ValueView)> {
        entries_view(self.entries@)
    }
}

/// The position of the first entry from `i` on with the key `key`; the
/// length of `entries` where there is none.
pub open spec fn index_from(entries: Seq<(Seq<char>, ValueView)>, key: Seq<char>, i: int) -> int
    decreases entries.len() - i,
{
    if i < 0 || i >= entries.len() {
        entries.len() as int
    } else if entries[i].0 == key {
        i
    } else {
        index_from(entries, key, i + 1)
    }
}

/// The value under `key`, where `entries` has the key.
pub open spec fn lookup(entries: Seq<(Seq<char>, ValueView)>, key: Seq<char>) -> Option<
    ValueView,
> {
    let i = index_from(entries, key, 0);
    if i < entries.len() {
        Some(entries[i].1)
    } else {
        None
    }
}

/// The entries after `value` was set under `key`: the key's entry holds the
/// new value in its old place, or a new entry stands at the end.
pub open spec fn assign(
    entries: Seq<(Seq<char>, ValueView)>,
    key: Seq<char>,
    value: ValueView,
) -> Seq<(Seq<char>, ValueView)> {
    let i = index_from(entries, key, 0);
    if i < entries.len() {
        entries.update(i, (key, value))
    } else {
        entries.push((key, value))
    }
}

/// Whether every key occurs once.
pub open spec fn distinct_keys(entries: Seq<(Seq<char>, ValueView)>) -> bool {
    forall|i: int, j: int|
        0 <= i < j < entries.len() ==> (#[trigger] entries[i]).0 != (#[trigger] entries[j]).0
}

/// The first position with a key lies inside the entries and holds the key;
/// no position before it does.
pub proof fn lemma_index_from(entries: Seq<(Seq<char>, ValueView)>, key: Seq<char>, i: int)
    requires
        0 <= i <= entries.len(),
    ensures
        i <= index_from(entries, key, i) <= entries.len(),
        index_from(entries, key, i) < entries.len() ==> entries[index_from(entries, key, i)].0
            == key,
        forall|j: int| i <= j < index_from(entries, key, i) ==> (#[trigger] entries[j]).0 != key,
    decreases entries.len() - i,
{
    if i < entries.len() && entries[i].0 != key {
        lemma_index_from(entries, key, i + 1);
    }
}

/// Looking up a key finds nothing exactly when no entry has the key.
pub proof fn lemma_lookup_none(entries: Seq<(Seq<char>, ValueView)>, key: Seq<char>)
    ensures
        lookup(entries, key) is None <==> forall|j: int|
            0 <= j < entries.len() ==> (#[trigger] entries[j]).0 != key,
{
    lemma_index_from(entries, key, 0);
}

/// After a value was set under a key, looking up the key finds that value.
pub proof fn lemma_lookup_assign_same(
    entries: Seq<(Seq<char>, ValueView)>,
    key: Seq<char>,
    value: ValueView,
)
    ensures
        lookup(assign(entries, key, value), key) == Some(value),
{
    lemma_index_from(entries, key, 0);
    let after = assign(entries, key, value);
    let i = index_from(entries, key, 0);
    lemma_index_from(after, key, 0);
    assert(after[i].0 == key);
}

/// Setting a value under one key leaves what is found under any other key.
pub proof fn lemma_lookup_assign_other(
    entries: Seq<(Seq<char>, ValueView)>,
    key: Seq<char>,
    value: ValueView,
    other: Seq<char>,
)
    requires
        other != key,
    ensures
        lookup(assign(entries, key, value), other) == lookup(entries, other),
{
    lemma_index_from(entries, key, 0);
    lemma_index_from(entries, other, 0);
    let after = assign(entries, key, value);
    lemma_index_from(after, other, 0);
    let a = index_from(entries, other, 0);
    if a < entries.len() {
        assert(after[a] == entries[a]);
    }
}

/// Setting a value keeps every key occurring once.
pub proof fn lemma_assign_distinct(
    entries: Seq<(Seq<char>, ValueView)>,
    key: Seq<char>,
    value: ValueView,
)
    requires
        distinct_keys(entries),
    ensures
        distinct_keys(assign(entries, key, value)),
{
    lemma_index_from(entries, key, 0);
}

impl Object {
    /// A mapping without entries.
    pub fn new() -> (object: Object)
        ensures
            object@ == Seq::<(Seq<char>, ValueView)>::empty(),
            distinct_keys(object@),
    {
        Object { entries: Vec::new() }
    }

    /// The number of entries.
    pub fn len(&self) -> (n: usize)
        ensures
            n == self@.len(),
    {
        self.entries.len()
    }

    /// The position of the entry with the key `key`.
    fn position(&self, key: &str) -> (i: usize)
        ensures
            i == index_from(self@, key@, 0),
            i <= self.entries.len(),
    {
        let mut i: usize = 0;
        while i < self.entries.len()
            invariant
                i <= self.entries.len(),
                self@.len() == self.entries.len(),
                index_from(self@, key@, 0) == index_from(self@, key@, i as int),
            decreases self.entries.len() - i,
        {
            if str_eq(self.entries[i].0.as_str(), key) {
                return i;
            }
            i = i + 1;
        }
        i
    }

    /// The value under `key`.
    pub fn get(&self, key: &str) -> (r: Option<&Value>)
        ensures
            match lookup(self@, key@) {
                Some(value) => r is Some && r->0@ == value,
                None => r is None,
            },
    {
        let i = self.position(key);
        if i < self.entries.len() {
            Some(&self.entries[i].1)
        } else {
            None
        }
    }

    /// Sets the value under `key`, in place of the one that was there.
    pub fn set(&mut self, key: &str, value: Value)
        ensures
            final(self)@ == assign(old(self)@, key@, value@),
            distinct_keys(old(self)@) ==> distinct_keys(final(self)@),
    {
        let i = self.position(key);
        let ghost before = self@;
        proof {
            if distinct_keys(before) {
                lemma_assign_distinct(before, key@, value@);
            }
        }
        if i < self.entries.len() {
            self.entries.set(i, (key.to_owned(), value));
            assert(self@ =~= before.update(i as int, (key@, value@)));
        } else {
            self.entries.push((key.to_owned(), value));
            assert(self@ =~= before.push((key@, value@)));
        }
    }
}

impl Value {
    /// A copy of the whole tree.
    #[verifier::loop_isolation(false)]
    pub fn duplicate(&self) -> (copy: Value)
        ensures
            copy@ == self@,
        decreases self,
    {
        match self {
            Value::Null => Value::Null,
            Value::Bool(b) => Value::Bool(*b),
            Value::Number(n) => Value::Number(*n),
            Value::Float(bits) => Value::Float(*bits),
            Value::String(text) => Value::String(text.clone()),
            Value::Array(items) => {
                let mut copies: Vec<Value> = Vec::new();
                let mut i: usize = 0;
                while i < items.len()
                    invariant
                        i <= items.len(),
                        copies.len() == i,
                        forall|j: int| 0 <= j < i ==> (#[trigger] copies[j])@ == items[j]@,
                    decreases items.len() - i,
                {
                    copies.push(items[i].duplicate());
                    i = i + 1;
                }
                assert(items_view(copies@) =~= items_view(items@));
                Value::Array(copies)
            },
            Value::Object(object) => {
                let mut copies: Vec<(String, Value)> = Vec::new();
                let mut i: usize = 0;
                while i < object.entries.len()
                    invariant
                        i <= object.entries.len(),
                        copies.len() == i,
                        forall|j: int|
                            0 <= j < i ==> (#[trigger] copies[j]).0@ == object.entries[j].0@
                                && copies[j].1@ == object.entries[j].1@,
                    decreases object.entries.len() - i,
                {
                    let entry = &object.entries[i];
                    copies.push((entry.0.clone(), entry.1.duplicate()));
                    i = i + 1;
                }
                assert(entries_view(copies@) =~= entries_view(object.entries@));
                Value::Object(Object { entries: copies })
            },
        }
    }
}

impl Clone for Value {
    fn clone(&self) -> (copy: Value)
        ensures
            copy@ == self@,
    {
        self.duplicate()
    }
}

} // verus!
