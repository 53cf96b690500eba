//! What the generated routines call: writing a field into a mapping,
//! reading a field out of one, and taking apart the value of an enum.

use crate::de::{fails_with, DeJs};
use crate::error::{DeJsErr, DeJsErrView};
use crate::ser::SerJs;
use crate::value::{assign, items_view, lookup, Object, Value, ValueView};
use vstd::prelude::*;

verus! {

/// The dynamic value of a label.
pub fn label(text: &str) -> (value: Value)
    ensures
        value@ == ValueView::String(text@),
{
    Value::String(text.to_owned())
}

/// Checks that `value` is a mapping.
pub fn expect_object(value: &Value) -> (r: Result<(), DeJsErr>)
    ensures
        match value@ {
            ValueView::Object(_) => r is Ok,
            _ => fails_with(r, DeJsErrView::TypeMismatch),
        },
{
    match value {
        Value::Object(_) => Ok(()),
        _ => Err(DeJsErr::TypeMismatch),
    }
}

/// Looks up `key` in the mapping `value`: `Ok(None)` where the mapping has
/// no such key, an error where `value` is no mapping.
pub fn obj_get<'a>(value: &'a Value, key: &str) -> (r: Result<Option<&'a Value>, DeJsErr>)
    ensures
        match value@ {
            ValueView::Object(entries) => match lookup(entries, key@) {
                Some(found) => r is Ok && r->Ok_0 is Some && r->Ok_0->0@ == found,
                None => r is Ok && r->Ok_0 is None,
            },
            _ => fails_with(r, DeJsErrView::TypeMismatch),
        },
{
    match value {
        Value::Object(object) => Ok(object.get(key)),
        _ => Err(DeJsErr::TypeMismatch),
    }
}

/// Takes apart the mapping that stands for a value of an enum: its one key,
/// which names the variant, and the value under it.
pub fn enum_entry<'a>(value: &'a Value) -> (r: Result<(&'a str, &'a Value), DeJsErr>)
    ensures
        match value@ {
            ValueView::Object(entries) => {
                if entries.len() == 1 {
                    r is Ok && r->Ok_0.0@ == entries[0].0 && r->Ok_0.1@ == entries[0].1
                } else {
                    fails_with(r, DeJsErrView::TypeMismatch)
                }
            },
            _ => fails_with(r, DeJsErrView::TypeMismatch),
        },
{
    match value {
        Value::Object(object) => {
            if object.entries.len() == 1 {
                let entry = &object.entries[0];
                Ok((entry.0.as_str(), &entry.1))
            } else {
                Err(DeJsErr::TypeMismatch)
            }
        },
        _ => Err(DeJsErr::TypeMismatch),
    }
}

/// The items of a sequence, handed out one by one from the front.
pub struct SeqItems<'a> {
    pub items: &'a Vec<Value>,
    pub next: usize,
}

impl<'a> SeqItems<'a> {
    /// The items that have not been handed out yet.
    pub open spec fn rest(&self) -> Seq<ValueView> {
        if self.next <= self.items@.len() {
            items_view(self.items@).skip(self.next as int)
        } else {
            Seq::empty()
        }
    }

    /// Hands out the next item; an error where none is left.
    pub fn next_item(&mut self) -> (r: Result<&'a Value, DeJsErr>)
        ensures
            final(self).items == old(self).items,
            old(self).rest().len() > 0 ==> r is Ok && r->Ok_0@ == old(self).rest()[0]
                && final(self).rest() == old(self).rest().skip(1),
            old(self).rest().len() == 0 ==> fails_with(r, DeJsErrView::TypeMismatch)
                && final(self).rest() == old(self).rest(),
    {
        let items: &'a Vec<Value> = self.items;
        if self.next < items.len() {
            let item = &items[self.next];
            self.next = self.next + 1;
            Ok(item)
        } else {
            Err(DeJsErr::TypeMismatch)
        }
    }
}

/// Starts handing out the items of the sequence `value`.
pub fn seq_items<'a>(value: &'a Value) -> (r: Result<SeqItems<'a>, DeJsErr>)
    ensures
        match value@ {
            ValueView::Array(items) => r is Ok && r->Ok_0.rest() == items,
            _ => fails_with(r, DeJsErrView::TypeMismatch),
        },
{
    match value {
        Value::Array(items) => Ok(SeqItems { items, next: 0 }),
        _ => Err(DeJsErr::TypeMismatch),
    }
}

/// Reads the next item as a `T`; an error where none is left.
pub fn item<'a, T: DeJs>(items: &mut SeqItems<'a>) -> (r: Result<T, DeJsErr>)
    ensures
        final(items).items == old(items).items,
        old(items).rest().len() > 0 ==> {
            &&& T::de_spec(old(items).rest()[0], r)
            &&& final(items).rest() == old(items).rest().skip(1)
        },
        old(items).rest().len() == 0 ==> {
            &&& fails_with(r, DeJsErrView::TypeMismatch)
            &&& final(items).rest() == old(items).rest()
        },
{
    match items.next_item() {
        Ok(value) => T::de_js(value),
        Err(e) => Err(e),
    }
}

/// Writes a field: afterwards the mapping holds under `key` what `value` is
/// written as.
pub fn put<T: SerJs>(object: &mut Object, key: &str, value: &T)
    ensures
        final(object)@ == assign(old(object)@, key@, value.ser_model()),
{
    object.set(key, value.ser_js());
}

/// What writing an optional field makes of a mapping: with a value inside,
/// the mapping holds under `key` what that value is written as; with none,
/// the mapping stays as it is, and so without the key if it had none.
pub open spec fn put_optional_spec<T: SerJs>(
    entries: Seq<(Seq<char>, ValueView)>,
    key: Seq<char>,
    value: Option<T>,
) -> Seq<(Seq<char>, ValueView)> {
    match value {
        Some(inner) => assign(entries, key, inner.ser_model()),
        None => entries,
    }
}

/// Writes an optional field, and nothing where it holds no value.
pub fn put_optional<T: SerJs>(object: &mut Object, key: &str, value: &Option<T>)
    ensures
        final(object)@ == put_optional_spec(old(object)@, key@, *value),
{
    match value {
        Some(inner) => {
            object.set(key, inner.ser_js());
        },
        None => {},
    }
}

/// Whether `r` is what reading a required field gives: what is found under
/// `key`, read as a `T`; a missing key is an error that names the field, and
/// a source that is no mapping a type mismatch.
pub open spec fn field_spec<T: DeJs>(
    source: ValueView,
    key: Seq<char>,
    member: Seq<char>,
    r: Result<T, DeJsErr>,
) -> bool {
    match source {
        ValueView::Object(entries) => match lookup(entries, key) {
            Some(found) => T::de_spec(found, r),
            None => fails_with(r, DeJsErrView::MissingField(member)),
        },
        _ => fails_with(r, DeJsErrView::TypeMismatch),
    }
}

/// Reads the required field `member` from under `key`.
pub fn field<T: DeJs>(source: &Value, key: &str, member: &str) -> (r: Result<T, DeJsErr>)
    ensures
        field_spec(source@, key@, member@, r),
{
    match obj_get(source, key) {
        Ok(Some(found)) => T::de_js(found),
        Ok(None) => Err(DeJsErr::MissingField(member.to_owned())),
        Err(e) => Err(e),
    }
}

/// Whether `r` is what reading an optional field gives: what is found under
/// `key`, read as an optional `T`; a missing key gives the empty value and
/// is no error.
pub open spec fn field_optional_spec<T: DeJs>(
    source: ValueView,
    key: Seq<char>,
    r: Result<Option<T>, DeJsErr>,
) -> bool {
    match source {
        ValueView::Object(entries) => match lookup(entries, key) {
            Some(found) => Option::<T>::de_spec(found, r),
            None => r is Ok && r->Ok_0 is None,
        },
        _ => fails_with(r, DeJsErrView::TypeMismatch),
    }
}

/// Reads an optional field from under `key`.
pub fn field_optional<T: DeJs>(source: &Value, key: &str) -> (r: Result<Option<T>, DeJsErr>)
    ensures
        field_optional_spec(source@, key@, r),
{
    match obj_get(source, key) {
        Ok(Some(found)) => Option::<T>::de_js(found),
        Ok(None) => Ok(None),
        Err(e) => Err(e),
    }
}

/// Whether `r` is what reading a defaulted field gives: what is found under
/// `key`, read as a `T`; a missing key gives the default value of `T`.
pub open spec fn field_or_default_spec<T: DeJs + Default>(
    source: ValueView,
    key: Seq<char>,
    r: Result<T, DeJsErr>,
) -> bool {
    match source {
        ValueView::Object(entries) => match lookup(entries, key) {
            Some(found) => T::de_spec(found, r),
            None => r is Ok && call_ensures(T::default, (), r->Ok_0),
        },
        _ => fails_with(r, DeJsErrView::TypeMismatch),
    }
}

/// Reads a defaulted field from under `key`.
pub fn field_or_default<T: DeJs + Default>(source: &Value, key: &str) -> (r: Result<T, DeJsErr>)
    ensures
        field_or_default_spec(source@, key@, r),
{
    match obj_get(source, key) {
        Ok(Some(found)) => T::de_js(found),
        Ok(None) => Ok(T::default()),
        Err(e) => Err(e),
    }
}

} // verus!
