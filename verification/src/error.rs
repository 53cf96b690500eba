//! Why a dynamic value could not be read as a typed value.

use vstd::prelude::*;
use vstd::string::*;

verus! {

/// The ways in which reading a dynamic value fails.
#[derive(Debug, PartialEq, Eq)]
pub enum DeJsErr {
    /// A field without a default was missing from the input; holds the
    /// field's name.
    MissingField(String),
    /// The input selected a variant that the enum does not have; holds the
    /// key that was found.
    UnknownVariant(String),
    /// The input is of another kind than the type asks for.
    TypeMismatch,
    /// A number in the input is outside the range of the integer type.
    NumericOverflow,
    /// Any other failure, with its message.
    Custom(String),
}

/// The view of a [`DeJsErr`].
pub enum DeJsErrView {
    MissingField(Seq<char>),
    UnknownVariant(Seq<char>),
    TypeMismatch,
    NumericOverflow,
    Custom(Seq<char>),
}

impl View for DeJsErr {
    type V = DeJsErrView;

    open spec fn view(&self) -> DeJsErrView {
        match self {
            DeJsErr::MissingField(name) => DeJsErrView::MissingField(name@),
            DeJsErr::UnknownVariant(key) => DeJsErrView::UnknownVariant(key@),
            DeJsErr::TypeMismatch => DeJsErrView::TypeMismatch,
            DeJsErr::NumericOverflow => DeJsErrView::NumericOverflow,
            DeJsErr::Custom(message) => DeJsErrView::Custom(message@),
        }
    }
}

impl DeJsErrView {
    /// The error, in words.
    pub open spec fn message(self) -> Seq<char> {
        match self {
            DeJsErrView::MissingField(name) => "missing required field: "@ + name,
            DeJsErrView::UnknownVariant(key) => "unknown variant: "@ + key,
            DeJsErrView::TypeMismatch => "type mismatch"@,
            DeJsErrView::NumericOverflow => "numeric overflow"@,
            DeJsErrView::Custom(message) => message,
        }
    }
}

impl DeJsErr {
    /// An error with the given message.
    pub fn new(msg: &str) -> (e: DeJsErr)
        ensures
            e@ == DeJsErrView::Custom(msg@),
    {
        DeJsErr::Custom(msg.to_owned())
    }

    /// The error, in words.
    pub fn message(&self) -> (text: String)
        ensures
            text@ == self@.message(),
    {
        match self {
            DeJsErr::MissingField(name) => {
                let mut text = "missing required field: ".to_owned();
                text.append(name.as_str());
                text
            },
            DeJsErr::UnknownVariant(key) => {
                let mut text = "unknown variant: ".to_owned();
                text.append(key.as_str());
                text
            },
            DeJsErr::TypeMismatch => "type mismatch".to_owned(),
            DeJsErr::NumericOverflow => "numeric overflow".to_owned(),
            DeJsErr::Custom(message) => message.clone(),
        }
    }
}

} // verus!
