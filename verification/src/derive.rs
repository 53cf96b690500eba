//! The two entry points: from the tokens of a declaration to the source text
//! of its serializing or deserializing routine.

use crate::ast::{Data, DataView};
use crate::codegen::{
    de_proxy_text, de_record_text, de_variants_text, derive_de_js_enum, derive_de_js_proxy,
    derive_de_js_struct, derive_ser_js_proxy, derive_ser_js_struct, ser_proxy_text,
    ser_record_text,
};
use crate::grammar::{declaration, lemma_declaration_well_formed, ParseError};
use crate::parse::parse_data;
use crate::plan::{field_plans, variant_plans};
use crate::shared::{attrs_proxy, has_flag, pair_value};
use crate::token::Token;
use vstd::prelude::*;

verus! {

/// Why no routine was generated for a declaration.
#[derive(Debug, Clone, Copy, PartialEq, Eq, Structural)]
pub enum DeriveError {
    /// The declaration does not follow the grammar.
    Parse(ParseError),
    /// A serializing routine was asked for something other than a struct
    /// with named fields.
    OnlyNamedStructs,
    /// A deserializing routine was asked for a struct with positional
    /// fields.
    PositionalFields,
}

impl DeriveError {
    /// Why no routine was generated, in words.
    pub open spec fn message_text(self) -> Seq<char> {
        match self {
            DeriveError::Parse(e) => e.message_text(),
            DeriveError::OnlyNamedStructs => "Only named structs are supported"@,
            DeriveError::PositionalFields => "Positional fields are not supported"@,
        }
    }

    /// Why no routine was generated, in words.
    pub fn message(&self) -> (text: &'static str)
        ensures
            text@ == self.message_text(),
    {
        match self {
            DeriveError::Parse(e) => e.message(),
            DeriveError::OnlyNamedStructs => "Only named structs are supported",
            DeriveError::PositionalFields => "Positional fields are not supported",
        }
    }
}

/// The serializing routine of a declaration: with `proxy`, the delegating
/// routine; else, for a struct with named fields, the routine that writes
/// its fields; for anything else there is none.
pub open spec fn ser_text(data: DataView) -> Result<Seq<char>, DeriveError> {
    match pair_value(data.attributes(), "proxy"@) {
        Some(proxy) => Ok(ser_proxy_text(proxy, data.name())),
        None => match data {
            DataView::Struct(parsed) => {
                if parsed.named {
                    Ok(ser_record_text(parsed.name, field_plans(false, parsed.fields)))
                } else {
                    Err(DeriveError::OnlyNamedStructs)
                }
            },
            _ => Err(DeriveError::OnlyNamedStructs),
        },
    }
}

/// The deserializing routine of a declaration: with `proxy`, the delegating
/// routine; else the routine that reads the fields of a struct, or that
/// selects and reads a variant of an enum. A struct with positional fields
/// has none.
pub open spec fn de_text(data: DataView) -> Result<Seq<char>, DeriveError> {
    match pair_value(data.attributes(), "proxy"@) {
        Some(proxy) => Ok(de_proxy_text(proxy, data.name())),
        None => match data {
            DataView::Struct(parsed) => {
                if parsed.named || parsed.fields.len() == 0 {
                    Ok(
                        de_record_text(
                            parsed.name,
                            field_plans(
                                has_flag(parsed.attributes, "default"@),
                                parsed.fields,
                            ),
                        ),
                    )
                } else {
                    Err(DeriveError::PositionalFields)
                }
            },
            DataView::Enum(parsed) => Ok(
                de_variants_text(parsed.name, variant_plans(parsed.variants)),
            ),
            DataView::Union => Err(DeriveError::Parse(ParseError::UnsupportedUnion)),
        },
    }
}

/// Generates the serializing routine for the declaration that `input`
/// spells.
pub fn derive_ser_js(input: &Vec<Token>) -> (r: Result<String, DeriveError>)
    ensures
        match declaration(input@) {
            Err(e) => r == Err::<String, DeriveError>(DeriveError::Parse(e)),
            Ok(data) => match ser_text(data) {
                Ok(text) => r is Ok && r->Ok_0@ == text,
                Err(e) => r == Err::<String, DeriveError>(e),
            },
        },
{
    let data = match parse_data(input) {
        Ok(data) => data,
        Err(e) => {
            return Err(DeriveError::Parse(e));
        },
    };
    proof {
        lemma_declaration_well_formed(input@);
    }
    match attrs_proxy(data.attributes()) {
        Some(proxy) => {
            return Ok(derive_ser_js_proxy(proxy.as_str(), data.name()));
        },
        None => {},
    }
    match &data {
        Data::Struct(parsed) => {
            if parsed.named {
                Ok(derive_ser_js_struct(parsed))
            } else {
                Err(DeriveError::OnlyNamedStructs)
            }
        },
        _ => Err(DeriveError::OnlyNamedStructs),
    }
}

/// Generates the deserializing routine for the declaration that `input`
/// spells.
pub fn derive_de_js(input: &Vec<Token>) -> (r: Result<String, DeriveError>)
    ensures
        match declaration(input@) {
            Err(e) => r == Err::<String, DeriveError>(DeriveError::Parse(e)),
            Ok(data) => match de_text(data) {
                Ok(text) => r is Ok && r->Ok_0@ == text,
                Err(e) => r == Err::<String, DeriveError>(e),
            },
        },
{
    let data = match parse_data(input) {
        Ok(data) => data,
        Err(e) => {
            return Err(DeriveError::Parse(e));
        },
    };
    proof {
        lemma_declaration_well_formed(input@);
    }
    match attrs_proxy(data.attributes()) {
        Some(proxy) => {
            return Ok(derive_de_js_proxy(proxy.as_str(), data.name()));
        },
        None => {},
    }
    match &data {
        Data::Struct(parsed) => {
            if parsed.named || parsed.fields.len() == 0 {
                Ok(derive_de_js_struct(parsed))
            } else {
                Err(DeriveError::PositionalFields)
            }
        },
        Data::Enum(parsed) => Ok(derive_de_js_enum(parsed)),
        Data::Union(_) => Err(DeriveError::Parse(ParseError::UnsupportedUnion)),
    }
}

} // verus!
