//! Reading typed values out of dynamic values.

use crate::error::{DeJsErr, DeJsErrView};
use crate::value::{Value, ValueView};
use vstd::prelude::*;

verus! {

/// Whether `r` is the failure `e`.
pub open spec fn fails_with<T>(r: Result<T, DeJsErr>, e: DeJsErrView) -> bool {
    r is Err && r->Err_0@ == e
}

/// A type whose values can be read out of dynamic values.
pub trait DeJs: Sized {
    /// Whether `r` is what reading `value` gives. Every implementation says
    /// so for itself: of one that does not, nothing is known, and its
    /// `de_js` cannot be proved.
    open spec fn de_spec(value: ValueView, r: Result<Self, DeJsErr>) -> bool {
        arbitrary()
    }

    /// Reads a value of this type out of `value`.
    fn de_js(value: &Value) -> (r: Result<Self, DeJsErr>)
        ensures
            Self::de_spec(value@, r),
    ;
}

impl DeJs for bool {
    open spec fn de_spec(value: ValueView, r: Result<Self, DeJsErr>) -> bool {
        match value {
            ValueView::Bool(b) => r == Ok::<bool, DeJsErr>(b),
            _ => fails_with(r, DeJsErrView::TypeMismatch),
        }
    }

    fn de_js(value: &Value) -> (r: Result<Self, DeJsErr>) {
        match value {
            Value::Bool(b) => Ok(*b),
            _ => Err(DeJsErr::TypeMismatch),
        }
    }
}

impl DeJs for String {
    open spec fn de_spec(value: ValueView, r: Result<Self, DeJsErr>) -> bool {
        match value {
            ValueView::String(text) => r is Ok && r->Ok_0@ == text,
            _ => fails_with(r, DeJsErrView::TypeMismatch),
        }
    }

    fn de_js(value: &Value) -> (r: Result<Self, DeJsErr>) {
        match value {
            Value::String(text) => Ok(text.clone()),
            _ => Err(DeJsErr::TypeMismatch),
        }
    }
}

impl<T: DeJs> DeJs for Option<T> {
    open spec fn de_spec(value: ValueView, r: Result<Self, DeJsErr>) -> bool {
        match value {
            ValueView::Null => r is Ok && r->Ok_0 is None,
            _ => match r {
                Ok(Some(inner)) => T::de_spec(value, Ok(inner)),
                Ok(None) => false,
                Err(e) => T::de_spec(value, Err(e)),
            },
        }
    }

    fn de_js(value: &Value) -> (r: Result<Self, DeJsErr>) {
        match value {
            Value::Null => Ok(None),
            _ => match T::de_js(value) {
                Ok(inner) => Ok(Some(inner)),
                Err(e) => Err(e),
            },
        }
    }
}

/// Whether `out` is what reading every item of `items` gives.
pub open spec fn de_all<T: DeJs>(items: Seq<ValueView>, out: Seq<T>) -> bool {
    &&& out.len() == items.len()
    &&& forall|i: int| 0 <= i < items.len() ==> T::de_spec(#[trigger] items[i], Ok(out[i]))
}

/// Whether reading the items of `items` in order fails with `e`: some item
/// fails so, and every item before it can be read.
pub open spec fn de_first_failure<T: DeJs>(items: Seq<ValueView>, e: DeJsErr) -> bool {
    exists|i: int, before: Seq<T>|
        0 <= i < items.len() && T::de_spec(#[trigger] items[i], Err(e)) && #[trigger] de_all(
            items.take(i),
            before,
        )
}

impl<T: DeJs> DeJs for Vec<T> {
    open spec fn de_spec(value: ValueView, r: Result<Self, DeJsErr>) -> bool {
        match value {
            ValueView::Array(items) => match r {
                Ok(out) => de_all(items, out@),
                Err(e) => de_first_failure::<T>(items, e),
            },
            _ => fails_with(r, DeJsErrView::TypeMismatch),
        }
    }

    fn de_js(value: &Value) -> (r: Result<Self, DeJsErr>) {
        match value {
            Value::Array(list) => {
                let ghost items = crate::value::items_view(list@);
                let mut out: Vec<T> = Vec::new();
                let mut i: usize = 0;
                while i < list.len()
                    invariant
                        i <= list.len(),
                        items == crate::value::items_view(list@),
                        value@ == ValueView::Array(items),
                        de_all(items.take(i as int), out@),
                    decreases list.len() - i,
                {
                    assert(items[i as int] == list[i as int]@);
                    match T::de_js(&list[i]) {
                        Ok(item) => {
                            out.push(item);
                        },
                        Err(e) => {
                            assert(de_first_failure::<T>(items, e));
                            return Err(e);
                        },
                    }
                    i = i + 1;
                }
                assert(items.take(i as int) =~= items);
                Ok(out)
            },
            _ => Err(DeJsErr::TypeMismatch),
        }
    }
}

impl<T: DeJs> DeJs for Box<T> {
    open spec fn de_spec(value: ValueView, r: Result<Self, DeJsErr>) -> bool {
        match r {
            Ok(inner) => T::de_spec(value, Ok(*inner)),
            Err(e) => T::de_spec(value, Err(e)),
        }
    }

    fn de_js(value: &Value) -> (r: Result<Self, DeJsErr>) {
        match T::de_js(value) {
            Ok(inner) => Ok(Box::new(inner)),
            Err(e) => Err(e),
        }
    }
}

/// The item at position `i`, or null where `items` is shorter.
pub open spec fn item_or_null(items: Seq<ValueView>, i: int) -> ValueView {
    if 0 <= i < items.len() {
        items[i]
    } else {
        ValueView::Null
    }
}

/// Whether `value` can be read as a `T`.
pub open spec fn readable<T: DeJs>(value: ValueView) -> bool {
    exists|x: T| T::de_spec(value, Ok(x))
}

/// The item at position `i` of `items`; `null` where `items` is shorter.
fn item_at<'a>(items: &'a Vec<Value>, i: usize, null: &'a Value) -> (item: &'a Value)
    requires
        null@ == ValueView::Null,
    ensures
        item@ == item_or_null(crate::value::items_view(items@), i as int),
{
    if i < items.len() {
        &items[i]
    } else {
        null
    }
}

impl<A: DeJs, B: DeJs> DeJs for (A, B) {
    open spec fn de_spec(value: ValueView, r: Result<Self, DeJsErr>) -> bool {
        match value {
            ValueView::Array(items) => match r {
                Ok(tuple) => {
                    &&& A::de_spec(item_or_null(items, 0), Ok(tuple.0))
                    &&& B::de_spec(item_or_null(items, 1), Ok(tuple.1))
                },
                Err(e) => {
                    ||| A::de_spec(item_or_null(items, 0), Err(e))
                    ||| readable::<A>(item_or_null(items, 0)) && B::de_spec(
                        item_or_null(items, 1),
                        Err(e),
                    )
                },
            },
            _ => fails_with(r, DeJsErrView::TypeMismatch),
        }
    }

    fn de_js(value: &Value) -> (r: Result<Self, DeJsErr>) {
        let null = Value::Null;
        match value {
            Value::Array(items) => {
                let a = match A::de_js(item_at(items, 0, &null)) {
                    Ok(a) => a,
                    Err(e) => {
                        return Err(e);
                    },
                };
                let b = match B::de_js(item_at(items, 1, &null)) {
                    Ok(b) => b,
                    Err(e) => {
                        return Err(e);
                    },
                };
                Ok((a, b))
            },
            _ => Err(DeJsErr::TypeMismatch),
        }
    }
}

impl<A: DeJs, B: DeJs, C: DeJs> DeJs for (A, B, C) {
    open spec fn de_spec(value: ValueView, r: Result<Self, DeJsErr>) -> bool {
        match value {
            ValueView::Array(items) => match r {
                Ok(tuple) => {
                    &&& A::de_spec(item_or_null(items, 0), Ok(tuple.0))
                    &&& B::de_spec(item_or_null(items, 1), Ok(tuple.1))
                    &&& C::de_spec(item_or_null(items, 2), Ok(tuple.2))
                },
                Err(e) => {
                    ||| A::de_spec(item_or_null(items, 0), Err(e))
                    ||| readable::<A>(item_or_null(items, 0)) && B::de_spec(
                        item_or_null(items, 1),
                        Err(e),
                    )
                    ||| readable::<A>(item_or_null(items, 0)) && readable::<B>(
                        item_or_null(items, 1),
                    ) && C::de_spec(item_or_null(items, 2), Err(e))
                },
            },
            _ => fails_with(r, DeJsErrView::TypeMismatch),
        }
    }

    fn de_js(value: &Value) -> (r: Result<Self, DeJsErr>) {
        let null = Value::Null;
        match value {
            Value::Array(items) => {
                let a = match A::de_js(item_at(items, 0, &null)) {
                    Ok(a) => a,
                    Err(e) => {
                        return Err(e);
                    },
                };
                let b = match B::de_js(item_at(items, 1, &null)) {
                    Ok(b) => b,
                    Err(e) => {
                        return Err(e);
                    },
                };
                let c = match C::de_js(item_at(items, 2, &null)) {
                    Ok(c) => c,
                    Err(e) => {
                        return Err(e);
                    },
                };
                Ok((a, b, c))
            },
            _ => Err(DeJsErr::TypeMismatch),
        }
    }
}

impl<A: DeJs, B: DeJs, C: DeJs, D: DeJs> DeJs for (A, B, C, D) {
    open spec fn de_spec(value: ValueView, r: Result<Self, DeJsErr>) -> bool {
        match value {
            ValueView::Array(items) => match r {
                Ok(tuple) => {
                    &&& A::de_spec(item_or_null(items, 0), Ok(tuple.0))
                    &&& B::de_spec(item_or_null(items, 1), Ok(tuple.1))
                    &&& C::de_spec(item_or_null(items, 2), Ok(tuple.2))
                    &&& D::de_spec(item_or_null(items, 3), Ok(tuple.3))
                },
                Err(e) => {
                    ||| A::de_spec(item_or_null(items, 0), Err(e))
                    ||| readable::<A>(item_or_null(items, 0)) && B::de_spec(
                        item_or_null(items, 1),
                        Err(e),
                    )
                    ||| readable::<A>(item_or_null(items, 0)) && readable::<B>(
                        item_or_null(items, 1),
                    ) && C::de_spec(item_or_null(items, 2), Err(e))
                    ||| readable::<A>(item_or_null(items, 0)) && readable::<B>(
                        item_or_null(items, 1),
                    ) && readable::<C>(item_or_null(items, 2)) && D::de_spec(
                        item_or_null(items, 3),
                        Err(e),
                    )
                },
            },
            _ => fails_with(r, DeJsErrView::TypeMismatch),
        }
    }

    fn de_js(value: &Value) -> (r: Result<Self, DeJsErr>) {
        let null = Value::Null;
        match value {
            Value::Array(items) => {
                let a = match A::de_js(item_at(items, 0, &null)) {
                    Ok(a) => a,
                    Err(e) => {
                        return Err(e);
                    },
                };
                let b = match B::de_js(item_at(items, 1, &null)) {
                    Ok(b) => b,
                    Err(e) => {
                        return Err(e);
                    },
                };
                let c = match C::de_js(item_at(items, 2, &null)) {
                    Ok(c) => c,
                    Err(e) => {
                        return Err(e);
                    },
                };
                let d = match D::de_js(item_at(items, 3, &null)) {
                    Ok(d) => d,
                    Err(e) => {
                        return Err(e);
                    },
                };
                Ok((a, b, c, d))
            },
            _ => Err(DeJsErr::TypeMismatch),
        }
    }
}

} // verus!
