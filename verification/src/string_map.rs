//! Mappings from strings to values of one type, as a list of entries.

use crate::de::{fails_with, DeJs};
use crate::error::{DeJsErr, DeJsErrView};
use crate::ser::SerJs;
use crate::token::str_eq;
use crate::value::{entries_view, Object, Value, ValueView};
use vstd::prelude::*;

verus! {

/// A mapping from strings to values of type `V`: its entries in the order in
/// which they were put in. It is written as a mapping with the same keys in
/// the same order, and read out of one.
#[derive(Debug, PartialEq, Eq)]
pub struct StringMap<V> {
    pub entries: Vec<(String, V)>,
}

impl<V> StringMap<V> {
    /// Whether every key occurs once.
    pub open spec fn wf(&self) -> bool {
        forall|i: int, j: int|
            0 <= i < j < self.entries@.len() ==> (#[trigger] self.entries@[i]).0@ != (
            #[trigger] self.entries@[j]).0@
    }

    /// The position of the first entry from `i` on with the key `key`; the
    /// number of entries where there is none.
    pub open spec fn index_from(&self, key: Seq<char>, i: int) -> int
        decreases self.entries@.len() - i,
    {
        if i < 0 || i >= self.entries@.len() {
            self.entries@.len() as int
        } else if self.entries@[i].0@ == key {
            i
        } else {
            self.index_from(key, i + 1)
        }
    }

    /// A mapping without entries.
    pub fn new() -> (map: StringMap<V>)
        ensures
            map.entries@.len() == 0,
            map.wf(),
    {
        StringMap { entries: Vec::new() }
    }

    /// The number of entries.
    pub fn len(&self) -> (n: usize)
        ensures
            n == self.entries@.len(),
    {
        self.entries.len()
    }

    /// The position of the entry with the key `key`.
    fn position(&self, key: &str) -> (i: usize)
        ensures
            i == self.index_from(key@, 0),
            i <= self.entries@.len(),
    {
        let mut i: usize = 0;
        while i < self.entries.len()
            invariant
                i <= self.entries.len(),
                self.index_from(key@, 0) == self.index_from(key@, i as int),
            decreases self.entries.len() - i,
        {
            if str_eq(self.entries[i].0.as_str(), key) {
                return i;
            }
            i = i + 1;
        }
        i
    }

    /// The value under `key`: that of the first entry with this key.
    pub fn get(&self, key: &str) -> (r: Option<&V>)
        ensures
            match r {
                Some(value) => self.index_from(key@, 0) < self.entries@.len() && *value
                    == self.entries@[self.index_from(key@, 0)].1,
                None => self.index_from(key@, 0) == self.entries@.len(),
            },
    {
        let i = self.position(key);
        if i < self.entries.len() {
            Some(&self.entries[i].1)
        } else {
            None
        }
    }

    /// Puts `value` under `key`: in place of the value of the first entry
    /// with this key, or as a new entry at the end.
    pub fn insert(&mut self, key: String, value: V)
        ensures
            old(self).index_from(key@, 0) < old(self).entries@.len() ==> final(self).entries@
                == old(self).entries@.update(old(self).index_from(key@, 0), (key, value)),
            old(self).index_from(key@, 0) == old(self).entries@.len() ==> final(self).entries@
                == old(self).entries@.push((key, value)),
            old(self).wf() ==> final(self).wf(),
    {
        let i = self.position(key.as_str());
        proof {
            self.lemma_index_from(key@, 0);
        }
        if i < self.entries.len() {
            self.entries.set(i, (key, value));
        } else {
            self.entries.push((key, value));
        }
    }

    /// The first position with a key lies inside the entries and holds the
    /// key; no position before it does.
    pub proof fn lemma_index_from(&self, key: Seq<char>, i: int)
        requires
            0 <= i <= self.entries@.len(),
        ensures
            i <= self.index_from(key, i) <= self.entries@.len(),
            self.index_from(key, i) < self.entries@.len() ==> self.entries@[self.index_from(
                key,
                i,
            )].0@ == key,
            forall|j: int|
                i <= j < self.index_from(key, i) ==> (#[trigger] self.entries@[j]).0@ != key,
        decreases self.entries@.len() - i,
    {
        if i < self.entries@.len() && self.entries@[i].0@ != key {
            self.lemma_index_from(key, i + 1);
        }
    }
}

/// The entries that a mapping is written as: under each key, in order, what
/// its value is written as.
pub open spec fn ser_entries<V: SerJs>(entries: Seq<(String, V)>) -> Seq<(Seq<char>, ValueView)> {
    Seq::new(entries.len(), |i: int| (entries[i].0@, entries[i].1.ser_model()))
}

impl<V: SerJs> SerJs for StringMap<V> {
    open spec fn ser_model(&self) -> ValueView {
        ValueView::Object(ser_entries(self.entries@))
    }

    fn ser_js(&self) -> (value: Value) {
        let mut out: Vec<(String, Value)> = Vec::new();
        let mut i: usize = 0;
        while i < self.entries.len()
            invariant
                i <= self.entries.len(),
                out.len() == i,
                forall|j: int|
                    0 <= j < i ==> (#[trigger] out[j]).0@ == self.entries[j].0@ && out[j].1@
                        == self.entries[j].1.ser_model(),
            decreases self.entries.len() - i,
        {
            let entry = &self.entries[i];
            out.push((entry.0.clone(), entry.1.ser_js()));
            i = i + 1;
        }
        assert(entries_view(out@) =~= ser_entries(self.entries@));
        Value::Object(Object { entries: out })
    }
}

/// Whether `out` is what reading every entry of `entries` gives: the same
/// keys in the same order, each with the value read from under it.
pub open spec fn de_entries<V: DeJs>(
    entries: Seq<(Seq<char>, ValueView)>,
    out: Seq<(String, V)>,
) -> bool {
    &&& out.len() == entries.len()
    &&& forall|i: int|
        0 <= i < entries.len() ==> out[i].0@ == (#[trigger] entries[i]).0 && V::de_spec(
            entries[i].1,
            Ok(out[i].1),
        )
}

/// Whether reading the entries in order fails with `e`: the value of some
/// entry fails so, and every entry before it can be read.
pub open spec fn de_entries_failure<V: DeJs>(
    entries: Seq<(Seq<char>, ValueView)>,
    e: DeJsErr,
) -> bool {
    exists|i: int, before: Seq<(String, V)>|
        0 <= i < entries.len() && V::de_spec((#[trigger] entries[i]).1, Err(e))
            && #[trigger] de_entries(entries.take(i), before)
}

impl<V: DeJs> DeJs for StringMap<V> {
    open spec fn de_spec(value: ValueView, r: Result<Self, DeJsErr>) -> bool {
        match value {
            ValueView::Object(entries) => match r {
                Ok(map) => de_entries(entries, map.entries@),
                Err(e) => de_entries_failure::<V>(entries, e),
            },
            _ => fails_with(r, DeJsErrView::TypeMismatch),
        }
    }

    fn de_js(value: &Value) -> (r: Result<Self, DeJsErr>) {
        match value {
            Value::Object(object) => {
                let ghost entries = entries_view(object.entries@);
                let mut out: Vec<(String, V)> = Vec::new();
                let mut i: usize = 0;
                while i < object.entries.len()
                    invariant
                        i <= object.entries.len(),
                        entries == entries_view(object.entries@),
                        value@ == ValueView::Object(entries),
                        de_entries(entries.take(i as int), out@),
                    decreases object.entries.len() - i,
                {
                    let entry = &object.entries[i];
                    assert(entries[i as int] == (entry.0@, entry.1@));
                    match V::de_js(&entry.1) {
                        Ok(item) => {
                            out.push((entry.0.clone(), item));
                        },
                        Err(e) => {
                            assert(de_entries_failure::<V>(entries, e));
                            return Err(e);
                        },
                    }
                    i = i + 1;
                }
                assert(entries.take(i as int) =~= entries);
                Ok(StringMap { entries: out })
            },
            _ => Err(DeJsErr::TypeMismatch),
        }
    }
}

} // verus!
