//! Declaration-driven generation of conversion routines.
//!
//! Given the declaration of a struct or an enum, marked up with a few
//! annotations, this library prints two routines: one that writes a value of
//! the declared type as a dynamic value, a tree of null, booleans, numbers,
//! strings, sequences and mappings, and one that reads it back.
//!
//! * [`token`] holds the tokens of a declaration and the cursor over them,
//!   [`grammar`] says what the tokens spell, and [`parse`] computes it into
//!   the syntax tree of [`ast`].
//! * [`shared`] looks up the annotations, [`plan`] resolves them into what
//!   is done with each field and variant, [`codegen`] prints the plan as
//!   source text, and [`derive`] goes from tokens to text in one step.
//! * [`value`], [`ser`], [`de`], [`numbers`], [`string_map`], [`internal`],
//!   [`error`] and [`cache`] are what the printed routines run on.
//! * [`convert`] carries a plan out on dynamic values, and [`laws`] and
//!   [`grammar_laws`] prove what holds of all this.

pub mod ast;
pub mod cache;
pub mod codegen;
pub mod convert;
pub mod de;
pub mod derive;
pub mod error;
pub mod grammar;
pub mod grammar_laws;
pub mod internal;
pub mod laws;
pub mod numbers;
pub mod parse;
pub mod plan;
pub mod ser;
pub mod shared;
pub mod string_map;
pub mod token;
pub mod value;

pub use de::DeJs;
pub use error::DeJsErr;
pub use ser::SerJs;
pub use string_map::StringMap;
pub use value::{Object, Value};

use vstd::prelude::*;

verus! {

/// Reads a typed value out of a dynamic value.
pub fn from_value<T: DeJs>(value: Value) -> (r: Result<T, DeJsErr>)
    ensures
        T::de_spec(value@, r),
{
    T::de_js(&value)
}

/// Writes a typed value as a dynamic value. This never fails.
pub fn to_value<T: SerJs>(value: &T) -> (r: Result<Value, DeJsErr>)
    ensures
        r is Ok,
        r->Ok_0@ == value.ser_model(),
{
    Ok(value.serialize_js())
}

} // verus!
