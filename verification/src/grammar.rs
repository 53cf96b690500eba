//! The grammar of declarations, as functions on token sequences.
//!
//! Each function reads the construct that starts at position `i` of `s` and
//! says what it is and how many tokens it spans, or which expectation was not
//! met. The parser in [`crate::parse`] is proved to compute exactly these.

use crate::ast::{
    AttributeView, DataView, EnumVariantView, EnumView, FieldView, StructView, TypeView,
    Visibility,
};
use crate::token::{
    eof_at, exact_punct_at, group_at, ident_at, literal_at, punct_at, visibility_end, Delimiter,
    Token,
};
use vstd::prelude::*;

verus! {

/// The expectation that a malformed declaration failed to meet.
#[derive(Debug, Clone, Copy, PartialEq, Eq, Structural)]
pub enum ParseError {
    /// A single `:` inside a path.
    ExpectedSecondColon,
    /// No identifier after `::`.
    ExpectedPathSegment,
    /// No type after `<` or after `,` in a generic argument list.
    ExpectedGenericArgument,
    /// No `>` after the generic arguments.
    ExpectedClosingBracket,
    /// No group after `#`, or no argument group after the marker's name.
    ExpectedAttributeBody,
    /// A metadata block that does not start with a name.
    ExpectedAttributeName,
    /// No identifier where an argument of the marker should start.
    ExpectedArgumentName,
    /// An argument name followed by something other than `=`.
    ExpectedEquals,
    /// No literal after `=`.
    ExpectedArgumentValue,
    /// No name at the start of a named field.
    ExpectedFieldName,
    /// No `:` after a field's name.
    ExpectedFieldSeparator,
    /// No type where a field's type should stand; this is what references,
    /// slices, arrays and the like run into.
    ExpectedFieldType,
    /// No name after `struct`.
    ExpectedStructName,
    /// A body in brackets other than parentheses or braces.
    UnsupportedDelimiter,
    /// No `;` after the fields of a tuple struct.
    ExpectedSemicolon,
    /// No name after `enum`.
    ExpectedEnumName,
    /// No name at the start of a variant.
    ExpectedVariantName,
    /// No keyword where the declaration should start.
    ExpectedKeyword,
    /// A union declaration.
    UnsupportedUnion,
    /// A keyword other than `struct`, `enum` or `union`.
    UnexpectedKeyword,
    /// Tokens left over after the declaration.
    TrailingTokens,
}

impl ParseError {
    /// The unmet expectation, in words.
    pub open spec fn message_text(self) -> Seq<char> {
        match self {
            ParseError::ExpectedSecondColon => "Expecting second :"@,
            ParseError::ExpectedPathSegment => "Expecting next path part after ::"@,
            ParseError::ExpectedGenericArgument => "Expecting generic argument"@,
            ParseError::ExpectedClosingBracket => "Expecting closing generic bracket"@,
            ParseError::ExpectedAttributeBody => "Expecting attribute body"@,
            ParseError::ExpectedAttributeName => "Attributes should start with a name"@,
            ParseError::ExpectedArgumentName => "Expecting attribute name"@,
            ParseError::ExpectedEquals => "Expecting = after attribute argument name"@,
            ParseError::ExpectedArgumentValue => "Expecting argument value"@,
            ParseError::ExpectedFieldName => "Field name expected"@,
            ParseError::ExpectedFieldSeparator => "Delimiter after field name expected"@,
            ParseError::ExpectedFieldType => "Expected field type"@,
            ParseError::ExpectedStructName => "Unnamed structs are not supported"@,
            ParseError::UnsupportedDelimiter => "Unsupported delimiter"@,
            ParseError::ExpectedSemicolon => "Expected ; on the end of tuple struct"@,
            ParseError::ExpectedEnumName => "Unnamed enums are not supported"@,
            ParseError::ExpectedVariantName => "Unnamed variants are not supported"@,
            ParseError::ExpectedKeyword => "Not an ident"@,
            ParseError::UnsupportedUnion => "Unions are not supported"@,
            ParseError::UnexpectedKeyword => "Unexpected keyword"@,
            ParseError::TrailingTokens => "Unexpected data after end of the declaration"@,
        }
    }

    /// The unmet expectation, in words.
    pub fn message(&self) -> (text: &'static str)
        ensures
            text@ == self.message_text(),
    {
        match self {
            ParseError::ExpectedSecondColon => "Expecting second :",
            ParseError::ExpectedPathSegment => "Expecting next path part after ::",
            ParseError::ExpectedGenericArgument => "Expecting generic argument",
            ParseError::ExpectedClosingBracket => "Expecting closing generic bracket",
            ParseError::ExpectedAttributeBody => "Expecting attribute body",
            ParseError::ExpectedAttributeName => "Attributes should start with a name",
            ParseError::ExpectedArgumentName => "Expecting attribute name",
            ParseError::ExpectedEquals => "Expecting = after attribute argument name",
            ParseError::ExpectedArgumentValue => "Expecting argument value",
            ParseError::ExpectedFieldName => "Field name expected",
            ParseError::ExpectedFieldSeparator => "Delimiter after field name expected",
            ParseError::ExpectedFieldType => "Expected field type",
            ParseError::ExpectedStructName => "Unnamed structs are not supported",
            ParseError::UnsupportedDelimiter => "Unsupported delimiter",
            ParseError::ExpectedSemicolon => "Expected ; on the end of tuple struct",
            ParseError::ExpectedEnumName => "Unnamed enums are not supported",
            ParseError::ExpectedVariantName => "Unnamed variants are not supported",
            ParseError::ExpectedKeyword => "Not an ident",
            ParseError::UnsupportedUnion => "Unions are not supported",
            ParseError::UnexpectedKeyword => "Unexpected keyword",
            ParseError::TrailingTokens => "Unexpected data after end of the declaration",
        }
    }
}

/// The continuation of a path from position `i`: every `::` and the
/// identifier behind it, as text, and the number of tokens this takes.
pub open spec fn path_tail_at(s: Seq<Token>, i: int) -> Result<(Seq<char>, nat), ParseError>
    decreases s.len() - i,
{
    if exact_punct_at(s, i, ":"@) is Some {
        if exact_punct_at(s, i + 1, ":"@) is Some {
            match ident_at(s, i + 2) {
                Some(part) => match path_tail_at(s, i + 3) {
                    Ok((rest, n)) => Ok(("::"@ + part + rest, n + 3)),
                    Err(e) => Err(e),
                },
                None => Err(ParseError::ExpectedPathSegment),
            }
        } else {
            Err(ParseError::ExpectedSecondColon)
        }
    } else {
        Ok((Seq::empty(), 0))
    }
}

/// A type as it was written: an optional type with the wrapper around its
/// path again, any other type as its path.
pub open spec fn as_written(ty: TypeView) -> Seq<char> {
    if ty.is_option {
        "Option<"@ + ty.path + ">"@
    } else {
        ty.path
    }
}

/// The identifier that starts a type at position `i`: any identifier but the
/// keyword `dyn`, with which no supported type starts.
pub open spec fn type_word_at(s: Seq<Token>, i: int) -> Option<Seq<char>> {
    match ident_at(s, i) {
        Some(word) => if word == "dyn"@ {
            None
        } else {
            Some(word)
        },
        None => None,
    }
}

/// The type written as `base<args>`, where `args` joins `count` arguments as
/// they were written: the optional wrapper around a single argument
/// collapses to that argument, marked optional, and this one level only, so
/// that a wrapper inside the argument stays; anything else is kept as text.
pub open spec fn generic_type(base: Seq<char>, args: Seq<char>, count: nat) -> TypeView {
    if base == "Option"@ && count == 1 {
        TypeView { is_option: true, path: args }
    } else {
        TypeView { is_option: false, path: base + "<"@ + args + ">"@ }
    }
}

/// The type expression at position `i`, with the number of tokens it spans.
/// `Ok(None)` where no type starts at `i`: where no identifier stands
/// there, as with references, slices, arrays, tuples and lifetimes, or the
/// keyword `dyn` of a trait object.
pub open spec fn type_at(s: Seq<Token>, i: int) -> Result<Option<(TypeView, nat)>, ParseError>
    decreases s.len() - i, 0nat,
{
    match type_word_at(s, i) {
        None => Ok(None),
        Some(first) => match path_tail_at(s, i + 1) {
            Err(e) => Err(e),
            Ok((tail, n)) => {
                if exact_punct_at(s, i + 1 + n, "<"@) is Some {
                    match type_args_at(s, i + n + 2) {
                        Err(e) => Err(e),
                        Ok((args, count, m)) => {
                            if exact_punct_at(s, i + n + 2 + m, ">"@) is Some {
                                Ok(Some((generic_type(first + tail, args, count), n + m + 3)))
                            } else {
                                Err(ParseError::ExpectedClosingBracket)
                            }
                        },
                    }
                } else {
                    Ok(Some((TypeView { is_option: false, path: first + tail }, n + 1)))
                }
            },
        },
    }
}

/// The comma-separated generic arguments from position `i`: the arguments as
/// they were written, joined by `", "`, how many they are, and the number of
/// tokens they span.
pub open spec fn type_args_at(s: Seq<Token>, i: int) -> Result<(Seq<char>, nat, nat), ParseError>
    decreases s.len() - i, 1nat,
{
    match type_at(s, i) {
        Err(e) => Err(e),
        Ok(None) => Err(ParseError::ExpectedGenericArgument),
        Ok(Some((arg, n))) => {
            if exact_punct_at(s, i + n, ","@) is Some {
                match type_args_at(s, i + n + 1) {
                    Err(e) => Err(e),
                    Ok((rest, count, m)) => Ok(
                        (as_written(arg) + ", "@ + rest, count + 1, n + m + 1),
                    ),
                }
            } else {
                Ok((as_written(arg), 1, n))
            }
        },
    }
}

/// A path continuation that takes tokens ends inside the sequence.
pub proof fn lemma_path_tail_span(s: Seq<Token>, i: int)
    ensures
        match path_tail_at(s, i) {
            Ok((_, n)) => n == 0 || i + n <= s.len(),
            Err(_) => true,
        },
    decreases s.len() - i,
{
    if exact_punct_at(s, i, ":"@) is Some && exact_punct_at(s, i + 1, ":"@) is Some && ident_at(
        s,
        i + 2,
    ) is Some {
        lemma_path_tail_span(s, i + 3);
    }
}

/// A type expression takes at least one token and ends inside the sequence.
pub proof fn lemma_type_span(s: Seq<Token>, i: int)
    ensures
        match type_at(s, i) {
            Ok(Some((_, n))) => n >= 1 && i + n <= s.len(),
            _ => true,
        },
    decreases s.len() - i, 0nat,
{
    if ident_at(s, i) is Some {
        lemma_path_tail_span(s, i + 1);
        match path_tail_at(s, i + 1) {
            Ok((_, n)) => {
                if exact_punct_at(s, i + 1 + n, "<"@) is Some {
                    lemma_type_args_span(s, i + n + 2);
                }
            },
            Err(_) => {},
        }
    }
}

/// A generic argument list holds at least one argument, takes at least one
/// token and ends inside the sequence.
pub proof fn lemma_type_args_span(s: Seq<Token>, i: int)
    ensures
        match type_args_at(s, i) {
            Ok((_, count, m)) => count >= 1 && m >= 1 && i + m <= s.len(),
            Err(_) => true,
        },
    decreases s.len() - i, 1nat,
{
    lemma_type_span(s, i);
    match type_at(s, i) {
        Ok(Some((_, n))) => {
            if exact_punct_at(s, i + n, ","@) is Some {
                lemma_type_args_span(s, i + n + 1);
            }
        },
        _ => {},
    }
}

/// The arguments of the marker from position `i` of its argument group to the
/// group's end: a single flag word that is all the group holds, or keys with
/// their unquoted values, in order. A word behind a key and its value must
/// be a key again, with `=` behind it.
pub open spec fn attribute_args_at(a: Seq<Token>, i: int) -> Result<Seq<Seq<char>>, ParseError>
    decreases a.len() - i,
{
    match ident_at(a, i) {
        None => Err(ParseError::ExpectedArgumentName),
        Some(key) => {
            if i == 0 && eof_at(a, 1) {
                Ok(seq![key])
            } else if exact_punct_at(a, i + 1, "="@) is None {
                Err(ParseError::ExpectedEquals)
            } else {
                match literal_at(a, i + 2) {
                    None => Err(ParseError::ExpectedArgumentValue),
                    Some(value) => {
                        if eof_at(a, i + 3) {
                            Ok(seq![key, value])
                        } else {
                            match attribute_args_at(a, i + 3) {
                                Ok(rest) => Ok(seq![key, value] + rest),
                                Err(e) => Err(e),
                            }
                        }
                    },
                }
            }
        },
    }
}

/// What a metadata block holding the tokens `b` stands for: `Ok(None)` for a
/// block under another name than the marker's, which is dropped.
pub open spec fn attribute_body(b: Seq<Token>) -> Result<Option<AttributeView>, ParseError> {
    match ident_at(b, 0) {
        None => Err(ParseError::ExpectedAttributeName),
        Some(name) => {
            if name != "picoserde"@ {
                Ok(None)
            } else {
                match group_at(b, 1) {
                    None => Err(ParseError::ExpectedAttributeBody),
                    Some(args) => match attribute_args_at(args.stream@, 0) {
                        Err(e) => Err(e),
                        Ok(tokens) => Ok(Some(AttributeView { name, tokens })),
                    },
                }
            }
        },
    }
}

/// The metadata block at position `i`: `Ok(None)` where no `#` stands at `i`,
/// else the two tokens `#` and a group, read as [`attribute_body`] says.
pub open spec fn attribute_at(s: Seq<Token>, i: int) -> Result<
    Option<Option<AttributeView>>,
    ParseError,
> {
    if exact_punct_at(s, i, "#"@) is Some {
        match group_at(s, i + 1) {
            None => Err(ParseError::ExpectedAttributeBody),
            Some(g) => match attribute_body(g.stream@) {
                Err(e) => Err(e),
                Ok(a) => Ok(Some(a)),
            },
        }
    } else {
        Ok(None)
    }
}

/// The run of metadata blocks from position `i`: the retained ones in order,
/// and the number of tokens that all of them span.
pub open spec fn attributes_at(s: Seq<Token>, i: int) -> Result<
    (Seq<AttributeView>, nat),
    ParseError,
>
    decreases s.len() - i,
{
    match attribute_at(s, i) {
        Err(e) => Err(e),
        Ok(None) => Ok((Seq::empty(), 0)),
        Ok(Some(a)) => match attributes_at(s, i + 2) {
            Err(e) => Err(e),
            Ok((rest, n)) => Ok(
                (
                    match a {
                        Some(kept) => seq![kept] + rest,
                        None => rest,
                    },
                    n + 2,
                ),
            ),
        },
    }
}

/// A run of metadata blocks that takes tokens ends inside the sequence.
pub proof fn lemma_attributes_span(s: Seq<Token>, i: int)
    ensures
        match attributes_at(s, i) {
            Ok((_, n)) => n == 0 || i + n <= s.len(),
            Err(_) => true,
        },
    decreases s.len() - i,
{
    match attribute_at(s, i) {
        Ok(Some(_)) => {
            lemma_attributes_span(s, i + 2);
        },
        _ => {},
    }
}

/// The number of tokens that the visibility modifier at position `i` spans;
/// zero where there is none.
pub open spec fn visibility_len(s: Seq<Token>, i: int) -> nat {
    match visibility_end(s, i) {
        Some(end) => (end - i) as nat,
        None => 0,
    }
}

/// The name of a named field at position `i` with the `:` behind it, and the
/// number of tokens taken; a positional field has no name and takes none.
pub open spec fn field_name_at(s: Seq<Token>, i: int, named: bool) -> Result<
    (Option<Seq<char>>, nat),
    ParseError,
> {
    if named {
        match ident_at(s, i) {
            None => Err(ParseError::ExpectedFieldName),
            Some(name) => {
                if exact_punct_at(s, i + 1, ":"@) is Some {
                    Ok((Some(name), 2))
                } else {
                    Err(ParseError::ExpectedFieldSeparator)
                }
            },
        }
    } else {
        Ok((None, 0))
    }
}

/// The field at position `i`: metadata blocks, an optional visibility
/// modifier, for a named field its name and `:`, the type, and one
/// punctuation token behind the type where there is one.
#[verifier::opaque]
pub open spec fn field_at(s: Seq<Token>, i: int, named: bool) -> Result<
    (FieldView, nat),
    ParseError,
> {
    match attributes_at(s, i) {
        Err(e) => Err(e),
        Ok((attributes, n1)) => {
            let n2 = visibility_len(s, i + n1);
            match field_name_at(s, i + n1 + n2, named) {
                Err(e) => Err(e),
                Ok((field_name, n3)) => match type_at(s, i + n1 + n2 + n3) {
                    Err(e) => Err(e),
                    Ok(None) => Err(ParseError::ExpectedFieldType),
                    Ok(Some((ty, n4))) => {
                        let n5: nat = if punct_at(s, i + n1 + n2 + n3 + n4) is Some {
                            1
                        } else {
                            0
                        };
                        Ok(
                            (
                                FieldView { attributes, vis: Visibility::Public, field_name, ty },
                                n1 + n2 + n3 + n4 + n5,
                            ),
                        )
                    },
                },
            }
        },
    }
}

/// A field takes at least one token and ends inside the sequence.
pub proof fn lemma_field_span(s: Seq<Token>, i: int, named: bool)
    ensures
        match field_at(s, i, named) {
            Ok((_, n)) => n >= 1 && i + n <= s.len(),
            Err(_) => true,
        },
{
    reveal(field_at);
    lemma_attributes_span(s, i);
    match attributes_at(s, i) {
        Ok((_, n1)) => {
            let n2 = visibility_len(s, i + n1);
            match field_name_at(s, i + n1 + n2, named) {
                Ok((_, n3)) => {
                    lemma_type_span(s, i + n1 + n2 + n3);
                },
                Err(_) => {},
            }
        },
        Err(_) => {},
    }
}

/// The position at which the type of the field at position `i` starts:
/// behind its metadata blocks, its visibility modifier and, for a named
/// field, its name and `:`. `None` where one of these is malformed.
pub open spec fn field_type_start(s: Seq<Token>, i: int, named: bool) -> Option<int> {
    match attributes_at(s, i) {
        Err(_) => None,
        Ok((_, n1)) => {
            let at = i + n1 + visibility_len(s, i + n1);
            match field_name_at(s, at, named) {
                Err(_) => None,
                Ok((_, n3)) => Some(at + n3),
            }
        },
    }
}

/// The fields from position `i` to the end of `s`.
pub open spec fn fields_at(s: Seq<Token>, i: int, named: bool) -> Result<
    Seq<FieldView>,
    ParseError,
>
    decreases s.len() - i,
{
    if eof_at(s, i) {
        Ok(Seq::empty())
    } else {
        match field_at(s, i, named) {
            Err(e) => Err(e),
            Ok((field, n)) => {
                proof {
                    lemma_field_span(s, i, named);
                }
                match fields_at(s, i + n, named) {
                    Err(e) => Err(e),
                    Ok(rest) => Ok(seq![field] + rest),
                }
            },
        }
    }
}

/// Whether a body in these brackets holds named fields: braces do,
/// parentheses do not, other brackets are refused.
pub open spec fn body_is_named(delimiter: Delimiter) -> Result<bool, ParseError> {
    match delimiter {
        Delimiter::Parenthesis => Ok(false),
        Delimiter::Brace => Ok(true),
        _ => Err(ParseError::UnsupportedDelimiter),
    }
}

/// The struct whose name stands at position `i`, just behind the keyword,
/// without its attributes: a name alone is a unit struct, a name and braces a
/// struct with named fields, a name, parentheses and `;` a tuple struct.
pub open spec fn struct_at(s: Seq<Token>, i: int) -> Result<(StructView, nat), ParseError> {
    match ident_at(s, i) {
        None => Err(ParseError::ExpectedStructName),
        Some(name) => match group_at(s, i + 1) {
            None => Ok(
                (
                    StructView {
                        name,
                        named: false,
                        fields: Seq::empty(),
                        attributes: Seq::empty(),
                    },
                    1,
                ),
            ),
            Some(g) => match body_is_named(g.delimiter) {
                Err(e) => Err(e),
                Ok(named) => match fields_at(g.stream@, 0, named) {
                    Err(e) => Err(e),
                    Ok(fields) => {
                        let parsed = StructView { name, named, fields, attributes: Seq::empty() };
                        if named {
                            Ok((parsed, 2))
                        } else if exact_punct_at(s, i + 2, ";"@) is Some {
                            Ok((parsed, 3))
                        } else {
                            Err(ParseError::ExpectedSemicolon)
                        }
                    },
                },
            },
        },
    }
}

/// The variant at position `i` of an enum's body: a name, an optional body
/// of fields, and behind a body an optional `;`, then an optional `,`.
pub open spec fn variant_at(s: Seq<Token>, i: int) -> Result<(EnumVariantView, nat), ParseError> {
    match ident_at(s, i) {
        None => Err(ParseError::ExpectedVariantName),
        Some(name) => match group_at(s, i + 1) {
            None => {
                let comma: nat = if exact_punct_at(s, i + 1, ","@) is Some {
                    1
                } else {
                    0
                };
                Ok((EnumVariantView { name, named: false, fields: Seq::empty() }, 1 + comma))
            },
            Some(g) => match body_is_named(g.delimiter) {
                Err(e) => Err(e),
                Ok(named) => match fields_at(g.stream@, 0, named) {
                    Err(e) => Err(e),
                    Ok(fields) => {
                        let semicolon: nat = if exact_punct_at(s, i + 2, ";"@) is Some {
                            1
                        } else {
                            0
                        };
                        let comma: nat = if exact_punct_at(s, i + 2 + semicolon, ","@) is Some {
                            1
                        } else {
                            0
                        };
                        Ok((EnumVariantView { name, named, fields }, 2 + semicolon + comma))
                    },
                },
            },
        },
    }
}

/// The variants from position `i` to the end of `s`.
pub open spec fn variants_at(s: Seq<Token>, i: int) -> Result<Seq<EnumVariantView>, ParseError>
    decreases s.len() - i,
{
    if eof_at(s, i) {
        Ok(Seq::empty())
    } else {
        match variant_at(s, i) {
            Err(e) => Err(e),
            Ok((variant, n)) => match variants_at(s, i + n) {
                Err(e) => Err(e),
                Ok(rest) => Ok(seq![variant] + rest),
            },
        }
    }
}

/// The enum whose name stands at position `i`, just behind the keyword,
/// without its attributes: a name alone is an enum without variants, a name
/// and braces an enum with the variants between them.
pub open spec fn enum_at(s: Seq<Token>, i: int) -> Result<(EnumView, nat), ParseError> {
    match ident_at(s, i) {
        None => Err(ParseError::ExpectedEnumName),
        Some(name) => match group_at(s, i + 1) {
            None => Ok(
                (EnumView { name, variants: Seq::empty(), attributes: Seq::empty() }, 1),
            ),
            Some(g) => {
                if g.delimiter != Delimiter::Brace {
                    Err(ParseError::UnsupportedDelimiter)
                } else {
                    match variants_at(g.stream@, 0) {
                        Err(e) => Err(e),
                        Ok(variants) => Ok(
                            (EnumView { name, variants, attributes: Seq::empty() }, 2),
                        ),
                    }
                }
            },
        },
    }
}

/// The keyword of the declaration at position `i`, behind an optional
/// visibility modifier of any form, and the number of tokens taken.
pub open spec fn keyword_at(s: Seq<Token>, i: int) -> Result<(Seq<char>, nat), ParseError> {
    let n = visibility_len(s, i);
    match ident_at(s, i + n) {
        None => Err(ParseError::ExpectedKeyword),
        Some(keyword) => Ok((keyword, n + 1)),
    }
}

/// The keyword of the declaration `s`, where its metadata blocks,
/// visibility and keyword are well formed.
pub open spec fn keyword_of(s: Seq<Token>) -> Option<Seq<char>> {
    match attributes_at(s, 0) {
        Err(_) => None,
        Ok((_, n)) => match keyword_at(s, n as int) {
            Err(_) => None,
            Ok((keyword, _)) => Some(keyword),
        },
    }
}

/// The position behind the keyword of the declaration `s`, where the
/// declared type's name should stand.
pub open spec fn name_position(s: Seq<Token>) -> int {
    match attributes_at(s, 0) {
        Err(_) => 0,
        Ok((_, n)) => match keyword_at(s, n as int) {
            Err(_) => n as int,
            Ok((_, k)) => n as int + k,
        },
    }
}

/// The declaration that the whole of `s` spells: leading metadata blocks, an
/// optional visibility modifier, the keyword, and the struct or enum, with
/// nothing behind it. The leading metadata blocks become the declaration's attributes.
pub open spec fn declaration(s: Seq<Token>) -> Result<DataView, ParseError> {
    match attributes_at(s, 0) {
        Err(e) => Err(e),
        Ok((attributes, n)) => match keyword_at(s, n as int) {
            Err(e) => Err(e),
            Ok((keyword, k)) => {
                if keyword == "struct"@ {
                    match struct_at(s, n as int + k) {
                        Err(e) => Err(e),
                        Ok((parsed, m)) => {
                            if eof_at(s, n as int + k + m) {
                                Ok(DataView::Struct(StructView { attributes, ..parsed }))
                            } else {
                                Err(ParseError::TrailingTokens)
                            }
                        },
                    }
                } else if keyword == "enum"@ {
                    match enum_at(s, n as int + k) {
                        Err(e) => Err(e),
                        Ok((parsed, m)) => {
                            if eof_at(s, n as int + k + m) {
                                Ok(DataView::Enum(EnumView { attributes, ..parsed }))
                            } else {
                                Err(ParseError::TrailingTokens)
                            }
                        },
                    }
                } else if keyword == "union"@ {
                    Err(ParseError::UnsupportedUnion)
                } else {
                    Err(ParseError::UnexpectedKeyword)
                }
            },
        },
    }
}

/// Whether the fields are all named (`named`) or all positional.
pub open spec fn names_match(fields: Seq<FieldView>, named: bool) -> bool {
    forall|k: int| 0 <= k < fields.len() ==> ((#[trigger] fields[k]).field_name is Some) == named
}

/// The fields read from a body all have a name where the body holds named
/// fields, and none has where it holds positional ones.
pub proof fn lemma_fields_names_match(s: Seq<Token>, i: int, named: bool)
    ensures
        match fields_at(s, i, named) {
            Ok(fields) => names_match(fields, named),
            Err(_) => true,
        },
    decreases s.len() - i,
{
    reveal(field_at);
    if !eof_at(s, i) {
        match field_at(s, i, named) {
            Ok((field, n)) => {
                lemma_field_span(s, i, named);
                lemma_fields_names_match(s, i + n, named);
            },
            Err(_) => {},
        }
    }
}

/// Whether the fields of every variant are all named or all positional, as
/// the variant says.
pub open spec fn variants_match(variants: Seq<EnumVariantView>) -> bool {
    forall|k: int|
        0 <= k < variants.len() ==> names_match(
            (#[trigger] variants[k]).fields,
            variants[k].named,
        )
}

/// The variants read from an enum's body each hold fields of one kind.
pub proof fn lemma_variants_match(s: Seq<Token>, i: int)
    ensures
        match variants_at(s, i) {
            Ok(variants) => variants_match(variants),
            Err(_) => true,
        },
    decreases s.len() - i,
{
    if !eof_at(s, i) {
        match variant_at(s, i) {
            Ok((variant, n)) => {
                lemma_variants_match(s, i + n);
                match group_at(s, i + 1) {
                    Some(g) => {
                        lemma_fields_names_match(g.stream@, 0, variant.named);
                    },
                    None => {},
                }
            },
            Err(_) => {},
        }
    }
}

/// Whether a declaration is one that the grammar can give: no union, and the
/// fields of the struct, or of each variant, all of one kind.
pub open spec fn well_formed(data: DataView) -> bool {
    match data {
        DataView::Struct(parsed) => names_match(parsed.fields, parsed.named),
        DataView::Enum(parsed) => variants_match(parsed.variants),
        DataView::Union => false,
    }
}

/// Every declaration that parses is well formed.
pub proof fn lemma_declaration_well_formed(s: Seq<Token>)
    ensures
        match declaration(s) {
            Ok(data) => well_formed(data),
            Err(_) => true,
        },
{
    match attributes_at(s, 0) {
        Ok((_, n)) => match keyword_at(s, n as int) {
            Ok((keyword, k)) => {
                let at = n as int + k;
                match group_at(s, at + 1) {
                    Some(g) => {
                        if keyword == "struct"@ {
                            match body_is_named(g.delimiter) {
                                Ok(named) => {
                                    lemma_fields_names_match(g.stream@, 0, named);
                                },
                                Err(_) => {},
                            }
                        } else if keyword == "enum"@ {
                            lemma_variants_match(g.stream@, 0);
                        }
                    },
                    None => {},
                }
            },
            Err(_) => {},
        },
        Err(_) => {},
    }
}

} // verus!
