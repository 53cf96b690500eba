//! Writing typed values as dynamic values.

use crate::value::{items_view, Object, Value, ValueView};
use vstd::prelude::*;

verus! {

/// A type whose values can be written as dynamic values.
pub trait SerJs {
    /// The dynamic value that `self` is written as. Every implementation
    /// says so for itself: of one that does not, nothing is known, and its
    /// `ser_js` cannot be proved.
    open spec fn ser_model(&self) -> ValueView {
        arbitrary()
    }

    /// Writes `self` as a dynamic value.
    fn ser_js(&self) -> (value: Value)
        ensures
            value@ == self.ser_model(),
    ;

    /// Writes `self` as a dynamic value.
    fn serialize_js(&self) -> (value: Value)
        ensures
            value@ == self.ser_model(),
    {
        self.ser_js()
    }

    /// The dynamic value of a label.
    fn label(&self, text: &str) -> (value: Value)
        ensures
            value@ == ValueView::String(text@),
    {
        Value::String(text.to_owned())
    }

    /// A mapping without entries, to write the fields into.
    fn ser_object(&self) -> (object: Object)
        ensures
            object@ == Seq::<(Seq<char>, ValueView)>::empty(),
    {
        Object::new()
    }
}

impl SerJs for bool {
    open spec fn ser_model(&self) -> ValueView {
        ValueView::Bool(*self)
    }

    fn ser_js(&self) -> (value: Value) {
        Value::Bool(*self)
    }
}

impl SerJs for String {
    open spec fn ser_model(&self) -> ValueView {
        ValueView::String(self@)
    }

    fn ser_js(&self) -> (value: Value) {
        Value::String(self.clone())
    }
}

impl<T: SerJs> SerJs for Option<T> {
    open spec fn ser_model(&self) -> ValueView {
        match self {
            Some(inner) => inner.ser_model(),
            None => ValueView::Null,
        }
    }

    fn ser_js(&self) -> (value: Value) {
        match self {
            Some(inner) => inner.ser_js(),
            None => Value::Null,
        }
    }
}

/// The dynamic values that the items of `items` are written as, in order.
pub open spec fn ser_models<T: SerJs>(items: Seq<T>) -> Seq<ValueView> {
    Seq::new(items.len(), |i: int| items[i].ser_model())
}

/// Writes the items of a slice, in order.
fn ser_items<T: SerJs>(items: &[T]) -> (value: Value)
    ensures
        value@ == ValueView::Array(ser_models(items@)),
{
    let mut out: Vec<Value> = Vec::new();
    let mut i: usize = 0;
    while i < items.len()
        invariant
            i <= items.len(),
            out.len() == i,
            forall|j: int| 0 <= j < i ==> (#[trigger] out[j])@ == items@[j].ser_model(),
        decreases items.len() - i,
    {
        out.push(items[i].ser_js());
        i = i + 1;
    }
    assert(items_view(out@) =~= ser_models(items@));
    Value::Array(out)
}

impl<T: SerJs> SerJs for Vec<T> {
    open spec fn ser_model(&self) -> ValueView {
        ValueView::Array(ser_models(self@))
    }

    fn ser_js(&self) -> (value: Value) {
        ser_items(self.as_slice())
    }
}

impl<T: SerJs> SerJs for [T] {
    open spec fn ser_model(&self) -> ValueView {
        ValueView::Array(ser_models(self@))
    }

    fn ser_js(&self) -> (value: Value) {
        ser_items(self)
    }
}

impl<A: SerJs, B: SerJs> SerJs for (A, B) {
    open spec fn ser_model(&self) -> ValueView {
        ValueView::Array(seq![self.0.ser_model(), self.1.ser_model()])
    }

    fn ser_js(&self) -> (value: Value) {
        let mut items: Vec<Value> = Vec::new();
        items.push(self.0.ser_js());
        items.push(self.1.ser_js());
        assert(items_view(items@) =~= seq![self.0.ser_model(), self.1.ser_model()]);
        Value::Array(items)
    }
}

impl<A: SerJs, B: SerJs, C: SerJs> SerJs for (A, B, C) {
    open spec fn ser_model(&self) -> ValueView {
        ValueView::Array(seq![self.0.ser_model(), self.1.ser_model(), self.2.ser_model()])
    }

    fn ser_js(&self) -> (value: Value) {
        let mut items: Vec<Value> = Vec::new();
        items.push(self.0.ser_js());
        items.push(self.1.ser_js());
        items.push(self.2.ser_js());
        assert(items_view(items@) =~= seq![
            self.0.ser_model(),
            self.1.ser_model(),
            self.2.ser_model(),
        ]);
        Value::Array(items)
    }
}

impl<A: SerJs, B: SerJs, C: SerJs, D: SerJs> SerJs for (A, B, C, D) {
    open spec fn ser_model(&self) -> ValueView {
        ValueView::Array(
            seq![
                self.0.ser_model(),
                self.1.ser_model(),
                self.2.ser_model(),
                self.3.ser_model(),
            ],
        )
    }

    fn ser_js(&self) -> (value: Value) {
        let mut items: Vec<Value> = Vec::new();
        items.push(self.0.ser_js());
        items.push(self.1.ser_js());
        items.push(self.2.ser_js());
        items.push(self.3.ser_js());
        assert(items_view(items@) =~= seq![
            self.0.ser_model(),
            self.1.ser_model(),
            self.2.ser_model(),
            self.3.ser_model(),
        ]);
        Value::Array(items)
    }
}

impl<T: SerJs> SerJs for Box<T> {
    open spec fn ser_model(&self) -> ValueView {
        (**self).ser_model()
    }

    fn ser_js(&self) -> (value: Value) {
        (**self).ser_js()
    }
}

} // verus!
