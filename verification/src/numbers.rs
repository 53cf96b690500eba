//! Bounded integers as dynamic values: written as the whole number they
//! are, and read back only from a whole number inside the type's range.

use crate::de::{fails_with, DeJs};
use crate::error::{DeJsErr, DeJsErrView};
use crate::ser::SerJs;
use crate::value::{Value, ValueView};
use vstd::prelude::*;

verus! {

/// The largest whole number up to which a double holds every whole number
/// exactly: two to the power of 53, less one.
pub const MAX_SAFE_INTEGER: i128 = 9007199254740991;

/// Whether a host that keeps numbers as doubles holds the whole number `n`
/// exactly.
pub open spec fn safe_integer(n: int) -> bool {
    -MAX_SAFE_INTEGER <= n <= MAX_SAFE_INTEGER
}

/// Says whether a host that keeps numbers as doubles holds the whole number
/// `n` exactly. Where it does not, handing `n` to the host must fail rather
/// than round.
pub fn is_safe_integer(n: i128) -> (r: bool)
    ensures
        r == safe_integer(n as int),
{
    -MAX_SAFE_INTEGER <= n && n <= MAX_SAFE_INTEGER
}

impl SerJs for u8 {
    open spec fn ser_model(&self) -> ValueView {
        ValueView::Number(*self as int)
    }

    fn ser_js(&self) -> (value: Value) {
        Value::Number(*self as i128)
    }
}

impl DeJs for u8 {
    open spec fn de_spec(value: ValueView, r: Result<Self, DeJsErr>) -> bool {
        match value {
            ValueView::Number(n) => {
                if u8::MIN <= n <= u8::MAX {
                    r is Ok && r->Ok_0 == n
                } else {
                    fails_with(r, DeJsErrView::NumericOverflow)
                }
            },
            _ => fails_with(r, DeJsErrView::TypeMismatch),
        }
    }

    fn de_js(value: &Value) -> (r: Result<Self, DeJsErr>) {
        match value {
            Value::Number(n) => {
                if *n < u8::MIN as i128 || *n > u8::MAX as i128 {
                    Err(DeJsErr::NumericOverflow)
                } else {
                    Ok(*n as u8)
                }
            },
            _ => Err(DeJsErr::TypeMismatch),
        }
    }
}

impl SerJs for u16 {
    open spec fn ser_model(&self) -> ValueView {
        ValueView::Number(*self as int)
    }

    fn ser_js(&self) -> (value: Value) {
        Value::Number(*self as i128)
    }
}

impl DeJs for u16 {
    open spec fn de_spec(value: ValueView, r: Result<Self, DeJsErr>) -> bool {
        match value {
            ValueView::Number(n) => {
                if u16::MIN <= n <= u16::MAX {
                    r is Ok && r->Ok_0 == n
                } else {
                    fails_with(r, DeJsErrView::NumericOverflow)
                }
            },
            _ => fails_with(r, DeJsErrView::TypeMismatch),
        }
    }

    fn de_js(value: &Value) -> (r: Result<Self, DeJsErr>) {
        match value {
            Value::Number(n) => {
                if *n < u16::MIN as i128 || *n > u16::MAX as i128 {
                    Err(DeJsErr::NumericOverflow)
                } else {
                    Ok(*n as u16)
                }
            },
            _ => Err(DeJsErr::TypeMismatch),
        }
    }
}

impl SerJs for u32 {
    open spec fn ser_model(&self) -> ValueView {
        ValueView::Number(*self as int)
    }

    fn ser_js(&self) -> (value: Value) {
        Value::Number(*self as i128)
    }
}

impl DeJs for u32 {
    open spec fn de_spec(value: ValueView, r: Result<Self, DeJsErr>) -> bool {
        match value {
            ValueView::Number(n) => {
                if u32::MIN <= n <= u32::MAX {
                    r is Ok && r->Ok_0 == n
                } else {
                    fails_with(r, DeJsErrView::NumericOverflow)
                }
            },
            _ => fails_with(r, DeJsErrView::TypeMismatch),
        }
    }

    fn de_js(value: &Value) -> (r: Result<Self, DeJsErr>) {
        match value {
            Value::Number(n) => {
                if *n < u32::MIN as i128 || *n > u32::MAX as i128 {
                    Err(DeJsErr::NumericOverflow)
                } else {
                    Ok(*n as u32)
                }
            },
            _ => Err(DeJsErr::TypeMismatch),
        }
    }
}

impl SerJs for u64 {
    open spec fn ser_model(&self) -> ValueView {
        ValueView::Number(*self as int)
    }

    fn ser_js(&self) -> (value: Value) {
        Value::Number(*self as i128)
    }
}

impl DeJs for u64 {
    open spec fn de_spec(value: ValueView, r: Result<Self, DeJsErr>) -> bool {
        match value {
            ValueView::Number(n) => {
                if u64::MIN <= n <= u64::MAX {
                    r is Ok && r->Ok_0 == n
                } else {
                    fails_with(r, DeJsErrView::NumericOverflow)
                }
            },
            _ => fails_with(r, DeJsErrView::TypeMismatch),
        }
    }

    fn de_js(value: &Value) -> (r: Result<Self, DeJsErr>) {
        match value {
            Value::Number(n) => {
                if *n < u64::MIN as i128 || *n > u64::MAX as i128 {
                    Err(DeJsErr::NumericOverflow)
                } else {
                    Ok(*n as u64)
                }
            },
            _ => Err(DeJsErr::TypeMismatch),
        }
    }
}

impl SerJs for usize {
    open spec fn ser_model(&self) -> ValueView {
        ValueView::Number(*self as int)
    }

    fn ser_js(&self) -> (value: Value) {
        Value::Number(*self as i128)
    }
}

impl DeJs for usize {
    open spec fn de_spec(value: ValueView, r: Result<Self, DeJsErr>) -> bool {
        match value {
            ValueView::Number(n) => {
                if usize::MIN <= n <= usize::MAX {
                    r is Ok && r->Ok_0 == n
                } else {
                    fails_with(r, DeJsErrView::NumericOverflow)
                }
            },
            _ => fails_with(r, DeJsErrView::TypeMismatch),
        }
    }

    fn de_js(value: &Value) -> (r: Result<Self, DeJsErr>) {
        match value {
            Value::Number(n) => {
                if *n < usize::MIN as i128 || *n > usize::MAX as i128 {
                    Err(DeJsErr::NumericOverflow)
                } else {
                    Ok(*n as usize)
                }
            },
            _ => Err(DeJsErr::TypeMismatch),
        }
    }
}

impl SerJs for i8 {
    open spec fn ser_model(&self) -> ValueView {
        ValueView::Number(*self as int)
    }

    fn ser_js(&self) -> (value: Value) {
        Value::Number(*self as i128)
    }
}

impl DeJs for i8 {
    open spec fn de_spec(value: ValueView, r: Result<Self, DeJsErr>) -> bool {
        match value {
            ValueView::Number(n) => {
                if i8::MIN <= n <= i8::MAX {
                    r is Ok && r->Ok_0 == n
                } else {
                    fails_with(r, DeJsErrView::NumericOverflow)
                }
            },
            _ => fails_with(r, DeJsErrView::TypeMismatch),
        }
    }

    fn de_js(value: &Value) -> (r: Result<Self, DeJsErr>) {
        match value {
            Value::Number(n) => {
                if *n < i8::MIN as i128 || *n > i8::MAX as i128 {
                    Err(DeJsErr::NumericOverflow)
                } else {
                    Ok(*n as i8)
                }
            },
            _ => Err(DeJsErr::TypeMismatch),
        }
    }
}

impl SerJs for i16 {
    open spec fn ser_model(&self) -> ValueView {
        ValueView::Number(*self as int)
    }

    fn ser_js(&self) -> (value: Value) {
        Value::Number(*self as i128)
    }
}

impl DeJs for i16 {
    open spec fn de_spec(value: ValueView, r: Result<Self, DeJsErr>) -> bool {
        match value {
            ValueView::Number(n) => {
                if i16::MIN <= n <= i16::MAX {
                    r is Ok && r->Ok_0 == n
                } else {
                    fails_with(r, DeJsErrView::NumericOverflow)
                }
            },
            _ => fails_with(r, DeJsErrView::TypeMismatch),
        }
    }

    fn de_js(value: &Value) -> (r: Result<Self, DeJsErr>) {
        match value {
            Value::Number(n) => {
                if *n < i16::MIN as i128 || *n > i16::MAX as i128 {
                    Err(DeJsErr::NumericOverflow)
                } else {
                    Ok(*n as i16)
                }
            },
            _ => Err(DeJsErr::TypeMismatch),
        }
    }
}

impl SerJs for i32 {
    open spec fn ser_model(&self) -> ValueView {
        ValueView::Number(*self as int)
    }

    fn ser_js(&self) -> (value: Value) {
        Value::Number(*self as i128)
    }
}

impl DeJs for i32 {
    open spec fn de_spec(value: ValueView, r: Result<Self, DeJsErr>) -> bool {
        match value {
            ValueView::Number(n) => {
                if i32::MIN <= n <= i32::MAX {
                    r is Ok && r->Ok_0 == n
                } else {
                    fails_with(r, DeJsErrView::NumericOverflow)
                }
            },
            _ => fails_with(r, DeJsErrView::TypeMismatch),
        }
    }

    fn de_js(value: &Value) -> (r: Result<Self, DeJsErr>) {
        match value {
            Value::Number(n) => {
                if *n < i32::MIN as i128 || *n > i32::MAX as i128 {
                    Err(DeJsErr::NumericOverflow)
                } else {
                    Ok(*n as i32)
                }
            },
            _ => Err(DeJsErr::TypeMismatch),
        }
    }
}

impl SerJs for i64 {
    open spec fn ser_model(&self) -> ValueView {
        ValueView::Number(*self as int)
    }

    fn ser_js(&self) -> (value: Value) {
        Value::Number(*self as i128)
    }
}

impl DeJs for i64 {
    open spec fn de_spec(value: ValueView, r: Result<Self, DeJsErr>) -> bool {
        match value {
            ValueView::Number(n) => {
                if i64::MIN <= n <= i64::MAX {
                    r is Ok && r->Ok_0 == n
                } else {
                    fails_with(r, DeJsErrView::NumericOverflow)
                }
            },
            _ => fails_with(r, DeJsErrView::TypeMismatch),
        }
    }

    fn de_js(value: &Value) -> (r: Result<Self, DeJsErr>) {
        match value {
            Value::Number(n) => {
                if *n < i64::MIN as i128 || *n > i64::MAX as i128 {
                    Err(DeJsErr::NumericOverflow)
                } else {
                    Ok(*n as i64)
                }
            },
            _ => Err(DeJsErr::TypeMismatch),
        }
    }
}

/// A whole number is read as a `u8` exactly when it lies in the range of
/// `u8`, and then as itself; outside the range reading fails as an
/// overflow: nothing is wrapped or cut off.
pub proof fn law_u8_bounds(n: int, r: Result<u8, DeJsErr>)
    requires
        <u8 as DeJs>::de_spec(ValueView::Number(n), r),
    ensures
        u8::MIN <= n <= u8::MAX ==> r is Ok && r->Ok_0 == n,
        !(u8::MIN <= n <= u8::MAX) ==> fails_with(r, DeJsErrView::NumericOverflow),
{
}

/// A `u8` is written as the whole number it is, and reading that gives the
/// `u8` back.
pub proof fn law_u8_round_trip(x: u8, r: Result<u8, DeJsErr>)
    requires
        <u8 as DeJs>::de_spec(x.ser_model(), r),
    ensures
        x.ser_model() == ValueView::Number(x as int),
        r == Ok::<u8, DeJsErr>(x),
{
}

/// A whole number is read as a `u16` exactly when it lies in the range of
/// `u16`, and then as itself; outside the range reading fails as an
/// overflow: nothing is wrapped or cut off.
pub proof fn law_u16_bounds(n: int, r: Result<u16, DeJsErr>)
    requires
        <u16 as DeJs>::de_spec(ValueView::Number(n), r),
    ensures
        u16::MIN <= n <= u16::MAX ==> r is Ok && r->Ok_0 == n,
        !(u16::MIN <= n <= u16::MAX) ==> fails_with(r, DeJsErrView::NumericOverflow),
{
}

/// A `u16` is written as the whole number it is, and reading that gives the
/// `u16` back.
pub proof fn law_u16_round_trip(x: u16, r: Result<u16, DeJsErr>)
    requires
        <u16 as DeJs>::de_spec(x.ser_model(), r),
    ensures
        x.ser_model() == ValueView::Number(x as int),
        r == Ok::<u16, DeJsErr>(x),
{
}

/// A whole number is read as a `u32` exactly when it lies in the range of
/// `u32`, and then as itself; outside the range reading fails as an
/// overflow: nothing is wrapped or cut off.
pub proof fn law_u32_bounds(n: int, r: Result<u32, DeJsErr>)
    requires
        <u32 as DeJs>::de_spec(ValueView::Number(n), r),
    ensures
        u32::MIN <= n <= u32::MAX ==> r is Ok && r->Ok_0 == n,
        !(u32::MIN <= n <= u32::MAX) ==> fails_with(r, DeJsErrView::NumericOverflow),
{
}

/// A `u32` is written as the whole number it is, and reading that gives the
/// `u32` back.
pub proof fn law_u32_round_trip(x: u32, r: Result<u32, DeJsErr>)
    requires
        <u32 as DeJs>::de_spec(x.ser_model(), r),
    ensures
        x.ser_model() == ValueView::Number(x as int),
        r == Ok::<u32, DeJsErr>(x),
{
}

/// A whole number is read as a `u64` exactly when it lies in the range of
/// `u64`, and then as itself; outside the range reading fails as an
/// overflow: nothing is wrapped or cut off.
pub proof fn law_u64_bounds(n: int, r: Result<u64, DeJsErr>)
    requires
        <u64 as DeJs>::de_spec(ValueView::Number(n), r),
    ensures
        u64::MIN <= n <= u64::MAX ==> r is Ok && r->Ok_0 == n,
        !(u64::MIN <= n <= u64::MAX) ==> fails_with(r, DeJsErrView::NumericOverflow),
{
}

/// A `u64` is written as the whole number it is, and reading that gives the
/// `u64` back.
pub proof fn law_u64_round_trip(x: u64, r: Result<u64, DeJsErr>)
    requires
        <u64 as DeJs>::de_spec(x.ser_model(), r),
    ensures
        x.ser_model() == ValueView::Number(x as int),
        r == Ok::<u64, DeJsErr>(x),
{
}

/// A whole number is read as a `usize` exactly when it lies in the range of
/// `usize`, and then as itself; outside the range reading fails as an
/// overflow: nothing is wrapped or cut off.
pub proof fn law_usize_bounds(n: int, r: Result<usize, DeJsErr>)
    requires
        <usize as DeJs>::de_spec(ValueView::Number(n), r),
    ensures
        usize::MIN <= n <= usize::MAX ==> r is Ok && r->Ok_0 == n,
        !(usize::MIN <= n <= usize::MAX) ==> fails_with(r, DeJsErrView::NumericOverflow),
{
}

/// A `usize` is written as the whole number it is, and reading that gives the
/// `usize` back.
pub proof fn law_usize_round_trip(x: usize, r: Result<usize, DeJsErr>)
    requires
        <usize as DeJs>::de_spec(x.ser_model(), r),
    ensures
        x.ser_model() == ValueView::Number(x as int),
        r == Ok::<usize, DeJsErr>(x),
{
}

/// A whole number is read as a `i8` exactly when it lies in the range of
/// `i8`, and then as itself; outside the range reading fails as an
/// overflow: nothing is wrapped or cut off.
pub proof fn law_i8_bounds(n: int, r: Result<i8, DeJsErr>)
    requires
        <i8 as DeJs>::de_spec(ValueView::Number(n), r),
    ensures
        i8::MIN <= n <= i8::MAX ==> r is Ok && r->Ok_0 == n,
        !(i8::MIN <= n <= i8::MAX) ==> fails_with(r, DeJsErrView::NumericOverflow),
{
}

/// A `i8` is written as the whole number it is, and reading that gives the
/// `i8` back.
pub proof fn law_i8_round_trip(x: i8, r: Result<i8, DeJsErr>)
    requires
        <i8 as DeJs>::de_spec(x.ser_model(), r),
    ensures
        x.ser_model() == ValueView::Number(x as int),
        r == Ok::<i8, DeJsErr>(x),
{
}

/// A whole number is read as a `i16` exactly when it lies in the range of
/// `i16`, and then as itself; outside the range reading fails as an
/// overflow: nothing is wrapped or cut off.
pub proof fn law_i16_bounds(n: int, r: Result<i16, DeJsErr>)
    requires
        <i16 as DeJs>::de_spec(ValueView::Number(n), r),
    ensures
        i16::MIN <= n <= i16::MAX ==> r is Ok && r->Ok_0 == n,
        !(i16::MIN <= n <= i16::MAX) ==> fails_with(r, DeJsErrView::NumericOverflow),
{
}

/// A `i16` is written as the whole number it is, and reading that gives the
/// `i16` back.
pub proof fn law_i16_round_trip(x: i16, r: Result<i16, DeJsErr>)
    requires
        <i16 as DeJs>::de_spec(x.ser_model(), r),
    ensures
        x.ser_model() == ValueView::Number(x as int),
        r == Ok::<i16, DeJsErr>(x),
{
}

/// A whole number is read as a `i32` exactly when it lies in the range of
/// `i32`, and then as itself; outside the range reading fails as an
/// overflow: nothing is wrapped or cut off.
pub proof fn law_i32_bounds(n: int, r: Result<i32, DeJsErr>)
    requires
        <i32 as DeJs>::de_spec(ValueView::Number(n), r),
    ensures
        i32::MIN <= n <= i32::MAX ==> r is Ok && r->Ok_0 == n,
        !(i32::MIN <= n <= i32::MAX) ==> fails_with(r, DeJsErrView::NumericOverflow),
{
}

/// A `i32` is written as the whole number it is, and reading that gives the
/// `i32` back.
pub proof fn law_i32_round_trip(x: i32, r: Result<i32, DeJsErr>)
    requires
        <i32 as DeJs>::de_spec(x.ser_model(), r),
    ensures
        x.ser_model() == ValueView::Number(x as int),
        r == Ok::<i32, DeJsErr>(x),
{
}

/// A whole number is read as a `i64` exactly when it lies in the range of
/// `i64`, and then as itself; outside the range reading fails as an
/// overflow: nothing is wrapped or cut off.
pub proof fn law_i64_bounds(n: int, r: Result<i64, DeJsErr>)
    requires
        <i64 as DeJs>::de_spec(ValueView::Number(n), r),
    ensures
        i64::MIN <= n <= i64::MAX ==> r is Ok && r->Ok_0 == n,
        !(i64::MIN <= n <= i64::MAX) ==> fails_with(r, DeJsErrView::NumericOverflow),
{
}

/// A `i64` is written as the whole number it is, and reading that gives the
/// `i64` back.
pub proof fn law_i64_round_trip(x: i64, r: Result<i64, DeJsErr>)
    requires
        <i64 as DeJs>::de_spec(x.ser_model(), r),
    ensures
        x.ser_model() == ValueView::Number(x as int),
        r == Ok::<i64, DeJsErr>(x),
{
}

} // verus!
