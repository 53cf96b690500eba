//! The declaration parser: recursive descent over a token cursor, one token
//! of lookahead, no backtracking.
//!
//! Every function here computes the function of [`crate::grammar`] that its
//! contract names, and leaves the cursor behind what it has read.

use crate::ast::{Attribute, Data, Enum, EnumVariant, Field, Struct, Type, Visibility};
use crate::grammar::{
    as_written, attribute_args_at, attribute_at, attributes_at, body_is_named, declaration, enum_at, field_at,
    fields_at, keyword_at, lemma_attributes_span, lemma_field_span, lemma_type_span, ParseError,
    path_tail_at, struct_at, type_args_at, type_at, variant_at, variants_at,
};
use crate::token::{
    Cursor, Delimiter, eof_at, exact_punct_at, next_eof, next_exact_punct, next_group, next_ident,
    next_literal, next_punct, next_visibility_modifier, str_eq, Token,
};
use vstd::prelude::*;
use vstd::string::*;

verus! {

/// What a path continuation amounts to once `done` has been read over
/// `taken` tokens and `rest` is what follows.
spec fn path_tail_after(
    done: Seq<char>,
    taken: int,
    rest: Result<(Seq<char>, nat), ParseError>,
) -> Result<(Seq<char>, nat), ParseError> {
    match rest {
        Ok((text, n)) => Ok((done + text, (taken + n) as nat)),
        Err(e) => Err(e),
    }
}

/// What a generic argument list amounts to once arguments with the joined
/// paths `done` have been read over `taken` tokens and the cursor stands at
/// position `i`, behind an argument.
spec fn type_args_after(
    done: Seq<char>,
    count: nat,
    taken: int,
    s: Seq<Token>,
    i: int,
) -> Result<(Seq<char>, nat, nat), ParseError> {
    if exact_punct_at(s, i, ","@) is Some {
        match type_args_at(s, i + 1) {
            Ok((rest, c, m)) => Ok((done + ", "@ + rest, count + c, (taken + 1 + m) as nat)),
            Err(e) => Err(e),
        }
    } else {
        Ok((done, count, taken as nat))
    }
}

/// Reads the continuation of a path, every `::` and the identifier behind
/// it, and appends it to `path`.
#[verifier::loop_isolation(false)]
fn next_path_tail(source: &mut Cursor, path: &mut String) -> (r: Result<(), ParseError>)
    ensures
        final(source).tokens == old(source).tokens,
        match path_tail_at(old(source).seq(), old(source).at()) {
            Ok((tail, n)) => {
                &&& r is Ok
                &&& final(path)@ == old(path)@ + tail
                &&& final(source).at() == old(source).at() + n
            },
            Err(e) => r == Err::<(), ParseError>(e),
        },
{
    let ghost s = source.seq();
    let ghost start = source.at();
    let ghost mut done = Seq::<char>::empty();
    let mut more = true;
    while more
        invariant
            source.tokens == old(source).tokens,
            start <= source.at(),
            path@ == old(path)@ + done,
            path_tail_at(s, start) == path_tail_after(
                done,
                source.at() - start,
                path_tail_at(s, source.at()),
            ),
            !more ==> exact_punct_at(s, source.at(), ":"@) is None,
        decreases
                if more {
                    1 + (if source.at() <= s.len() {
                        s.len() - source.at()
                    } else {
                        0
                    })
                } else {
                    0
                },
    {
        if next_exact_punct(source, ":").is_none() {
            more = false;
        } else {
            if next_exact_punct(source, ":").is_none() {
                return Err(ParseError::ExpectedSecondColon);
            }
            match next_ident(source) {
                Some(part) => {
                    path.append("::");
                    path.append(part.as_str());
                    proof {
                        if let Ok((text, n)) = path_tail_at(s, source.at()) {
                            assert(done + ("::"@ + part@ + text) =~= (done + "::"@ + part@) + text);
                        }
                        done = done + "::"@ + part@;
                    }
                },
                None => {
                    return Err(ParseError::ExpectedPathSegment);
                },
            }
        }
    }
    Ok(())
}

/// Reads a type expression: a path, and behind `<` its generic arguments up
/// to `>`. Returns `Ok(None)`, with the cursor where it was, where no type
/// starts under the cursor.
pub fn next_type(source: &mut Cursor) -> (r: Result<Option<Type>, ParseError>)
    ensures
        final(source).tokens == old(source).tokens,
        match type_at(old(source).seq(), old(source).at()) {
            Ok(Some((ty, n))) => {
                &&& r is Ok
                &&& r->Ok_0 is Some
                &&& r->Ok_0->0@ == ty
                &&& final(source).at() == old(source).at() + n
            },
            Ok(None) => r is Ok && r->Ok_0 is None && final(source).at() == old(source).at(),
            Err(e) => r == Err::<Option<Type>, ParseError>(e),
        },
    decreases old(source).seq().len() - old(source).at(), 0nat,
{
    match source.peek() {
        Some(Token::Ident(word)) => {
            if str_eq(word.as_str(), "dyn") {
                return Ok(None);
            }
        },
        _ => {
            return Ok(None);
        },
    }
    let mut ty = match next_ident(source) {
        Some(first) => first,
        None => {
            return Ok(None);
        },
    };
    match next_path_tail(source, &mut ty) {
        Ok(()) => {},
        Err(e) => {
            return Err(e);
        },
    }
    if next_exact_punct(source, "<").is_none() {
        return Ok(Some(Type { is_option: false, path: ty }));
    }
    let (args, single) = match next_type_args(source) {
        Ok(args) => args,
        Err(e) => {
            return Err(e);
        },
    };
    if next_exact_punct(source, ">").is_none() {
        return Err(ParseError::ExpectedClosingBracket);
    }
    if single && str_eq(ty.as_str(), "Option") {
        Ok(Some(Type { is_option: true, path: args }))
    } else {
        ty.append("<");
        ty.append(args.as_str());
        ty.append(">");
        Ok(Some(Type { is_option: false, path: ty }))
    }
}

/// Appends a type as it was written: an optional type with its wrapper.
fn append_as_written(text: &mut String, ty: &Type)
    ensures
        final(text)@ == old(text)@ + as_written(ty@),
{
    if ty.is_option {
        let ghost before = text@;
        text.append("Option<");
        text.append(ty.path.as_str());
        text.append(">");
        assert(text@ =~= before + ("Option<"@ + ty.path@ + ">"@));
    } else {
        text.append(ty.path.as_str());
    }
}

/// Reads the generic arguments behind `<`: one type, and one more behind
/// every `,`. Returns the arguments as written, joined by `", "`, and
/// whether there was exactly one.
#[verifier::loop_isolation(false)]
fn next_type_args(source: &mut Cursor) -> (r: Result<(String, bool), ParseError>)
    ensures
        final(source).tokens == old(source).tokens,
        match type_args_at(old(source).seq(), old(source).at()) {
            Ok((args, count, n)) => {
                &&& r is Ok
                &&& r->Ok_0.0@ == args
                &&& r->Ok_0.1 == (count == 1)
                &&& final(source).at() == old(source).at() + n
            },
            Err(e) => r == Err::<(String, bool), ParseError>(e),
        },
    decreases old(source).seq().len() - old(source).at(), 1nat,
{
    let ghost s = source.seq();
    let ghost start = source.at();
    let first = match next_type(source) {
        Ok(Some(arg)) => arg,
        Ok(None) => {
            return Err(ParseError::ExpectedGenericArgument);
        },
        Err(e) => {
            return Err(e);
        },
    };
    proof {
        lemma_type_span(s, start);
    }
    let mut args = String::new();
    append_as_written(&mut args, &first);
    assert(args@ =~= as_written(first@));
    let mut single = true;
    let ghost mut count: nat = 1;
    let mut more = true;
    while more
        invariant
            source.tokens == old(source).tokens,
            start < source.at() <= s.len(),
            single == (count == 1),
            count >= 1,
            type_args_at(s, start) == type_args_after(
                args@,
                count,
                source.at() - start,
                s,
                source.at(),
            ),
            !more ==> exact_punct_at(s, source.at(), ","@) is None,
        decreases s.len() - source.at() + (if more {
            1int
        } else {
            0int
        }),
    {
        let ghost here = source.at();
        if next_exact_punct(source, ",").is_none() {
            more = false;
        } else {
            match next_type(source) {
                Ok(Some(arg)) => {
                    proof {
                        lemma_type_span(s, here + 1);
                        if exact_punct_at(s, source.at(), ","@) is Some {
                            if let Ok((rest, c, m)) = type_args_at(s, source.at() + 1) {
                                assert(args@ + ", "@ + (as_written(arg@) + ", "@ + rest) =~= (args@
                                    + ", "@ + as_written(arg@)) + ", "@ + rest);
                            }
                        }
                        count = count + 1;
                    }
                    args.append(", ");
                    append_as_written(&mut args, &arg);
                    single = false;
                },
                Ok(None) => {
                    return Err(ParseError::ExpectedGenericArgument);
                },
                Err(e) => {
                    return Err(e);
                },
            }
        }
    }
    Ok((args, single))
}

/// Reads one metadata block: `#` and a group. Returns `Ok(None)`, with the
/// cursor where it was, where no `#` stands under the cursor, and
/// `Ok(Some(None))` for a block under another name than the marker's.
#[verifier::loop_isolation(false)]
pub fn next_attribute(source: &mut Cursor) -> (r: Result<Option<Option<Attribute>>, ParseError>)
    ensures
        final(source).tokens == old(source).tokens,
        match attribute_at(old(source).seq(), old(source).at()) {
            Ok(Some(a)) => {
                &&& r is Ok
                &&& r->Ok_0 is Some
                &&& r->Ok_0->0.deep_view() == a
                &&& final(source).at() == old(source).at() + 2
            },
            Ok(None) => r is Ok && r->Ok_0 is None && final(source).at() == old(source).at(),
            Err(e) => r == Err::<Option<Option<Attribute>>, ParseError>(e),
        },
{
    if next_exact_punct(source, "#").is_none() {
        return Ok(None);
    }
    let group = match next_group(source) {
        Some(group) => group,
        None => {
            return Err(ParseError::ExpectedAttributeBody);
        },
    };
    let mut body = Cursor::new(&group.stream);
    let name = match next_ident(&mut body) {
        Some(name) => name,
        None => {
            return Err(ParseError::ExpectedAttributeName);
        },
    };
    if !str_eq(name.as_str(), "picoserde") {
        return Ok(Some(None));
    }
    let args_group = match next_group(&mut body) {
        Some(group) => group,
        None => {
            return Err(ParseError::ExpectedAttributeBody);
        },
    };
    let ghost a = args_group.stream@;
    let mut args = Cursor::new(&args_group.stream);
    let mut tokens: Vec<String> = Vec::new();
    let mut done = false;
    let mut first = true;
    while !done
        invariant
            args.seq() == a,
            args.at() <= a.len(),
            !done ==> first == (args.at() == 0),
            !done && first ==> tokens.len() == 0,
            !done ==> attribute_args_at(a, 0) == (match attribute_args_at(a, args.at()) {
                Ok(rest) => Ok(tokens.deep_view() + rest),
                Err(e) => Err(e),
            }),
            done ==> attribute_args_at(a, 0) == Ok::<Seq<Seq<char>>, ParseError>(
                tokens.deep_view(),
            ),
        decreases
                if done {
                    0
                } else {
                    a.len() - args.at() + 1
                },
    {
        let ghost before = tokens.deep_view();
        let key = match next_ident(&mut args) {
            Some(key) => key,
            None => {
                return Err(ParseError::ExpectedArgumentName);
            },
        };
        tokens.push(key);
        assert(tokens.deep_view() =~= before.push(key@));
        assert(before + seq![key@] =~= before.push(key@));
        let alone = if first {
            next_eof(&mut args).is_some()
        } else {
            false
        };
        if alone {
            assert(before =~= Seq::<Seq<char>>::empty());
            done = true;
        } else {
            if next_exact_punct(&mut args, "=").is_none() {
                return Err(ParseError::ExpectedEquals);
            }
            first = false;
            let value = match next_literal(&mut args) {
                Some(value) => value,
                None => {
                    return Err(ParseError::ExpectedArgumentValue);
                },
            };
            tokens.push(value);
            assert(tokens.deep_view() =~= before.push(key@).push(value@));
            assert(before + seq![key@, value@] =~= before.push(key@).push(value@));
            if next_eof(&mut args).is_some() {
                done = true;
            } else {
                proof {
                    if let Ok(rest) = attribute_args_at(a, args.at()) {
                        assert(before + (seq![key@, value@] + rest) =~= before.push(key@).push(
                            value@,
                        ) + rest);
                    }
                }
            }
        }
    }
    Ok(Some(Some(Attribute { name, tokens })))
}

/// What a run of metadata blocks amounts to once the retained blocks `done`
/// have been read over `taken` tokens and `rest` is what follows.
spec fn attributes_after(
    done: Seq<crate::ast::AttributeView>,
    taken: int,
    rest: Result<(Seq<crate::ast::AttributeView>, nat), ParseError>,
) -> Result<(Seq<crate::ast::AttributeView>, nat), ParseError> {
    match rest {
        Ok((more, n)) => Ok((done + more, (taken + n) as nat)),
        Err(e) => Err(e),
    }
}

/// Reads metadata blocks as long as there are any and returns the retained
/// ones.
#[verifier::loop_isolation(false)]
pub fn next_attributes_list(source: &mut Cursor) -> (r: Result<Vec<Attribute>, ParseError>)
    ensures
        final(source).tokens == old(source).tokens,
        match attributes_at(old(source).seq(), old(source).at()) {
            Ok((attributes, n)) => {
                &&& r is Ok
                &&& r->Ok_0.deep_view() == attributes
                &&& final(source).at() == old(source).at() + n
            },
            Err(e) => r == Err::<Vec<Attribute>, ParseError>(e),
        },
{
    let ghost s = source.seq();
    let ghost start = source.at();
    let mut attributes: Vec<Attribute> = Vec::new();
    let mut more = true;
    while more
        invariant
            source.tokens == old(source).tokens,
            start <= source.at(),
            more ==> attributes_at(s, start) == attributes_after(
                attributes.deep_view(),
                source.at() - start,
                attributes_at(s, source.at()),
            ),
            !more ==> attributes_at(s, start) == Ok::<
                (Seq<crate::ast::AttributeView>, nat),
                ParseError,
            >((attributes.deep_view(), (source.at() - start) as nat)),
        decreases
                if more {
                    1 + (if source.at() <= s.len() {
                        s.len() - source.at()
                    } else {
                        0
                    })
                } else {
                    0
                },
    {
        let ghost before = attributes.deep_view();
        let ghost here = source.at();
        match next_attribute(source) {
            Err(e) => {
                return Err(e);
            },
            Ok(None) => {
                more = false;
            },
            Ok(Some(None)) => {
                proof {
                    lemma_attributes_span(s, here);
                }
            },
            Ok(Some(Some(attribute))) => {
                attributes.push(attribute);
                proof {
                    lemma_attributes_span(s, here);
                    assert(attributes.deep_view() =~= before.push(attribute@));
                    if let Ok((rest, n)) = attributes_at(s, here + 2) {
                        assert(before + (seq![attribute@] + rest) =~= before.push(attribute@)
                            + rest);
                    }
                }
            },
        }
    }
    Ok(attributes)
}

/// Reads one field: metadata blocks, an optional visibility modifier, for a
/// named field its name and `:`, the type, and one punctuation token behind
/// the type where there is one.
pub fn next_field(body: &mut Cursor, named: bool) -> (r: Result<Field, ParseError>)
    ensures
        final(body).tokens == old(body).tokens,
        match field_at(old(body).seq(), old(body).at(), named) {
            Ok((field, n)) => {
                &&& r is Ok
                &&& r->Ok_0@ == field
                &&& final(body).at() == old(body).at() + n
            },
            Err(e) => r == Err::<Field, ParseError>(e),
        },
{
    proof {
        reveal(field_at);
    }
    let attributes = match next_attributes_list(body) {
        Ok(attributes) => attributes,
        Err(e) => {
            return Err(e);
        },
    };
    let _ = next_visibility_modifier(body);
    let field_name = if named {
        let name = match next_ident(body) {
            Some(name) => name,
            None => {
                return Err(ParseError::ExpectedFieldName);
            },
        };
        if next_exact_punct(body, ":").is_none() {
            return Err(ParseError::ExpectedFieldSeparator);
        }
        Some(name)
    } else {
        None
    };
    let ty = match next_type(body) {
        Ok(Some(ty)) => ty,
        Ok(None) => {
            return Err(ParseError::ExpectedFieldType);
        },
        Err(e) => {
            return Err(e);
        },
    };
    let _ = next_punct(body);
    Ok(Field { attributes, vis: Visibility::Public, field_name, ty })
}

/// Reads fields until the tokens are exhausted.
#[verifier::loop_isolation(false)]
pub fn next_fields(body: &mut Cursor, named: bool) -> (r: Result<Vec<Field>, ParseError>)
    ensures
        final(body).tokens == old(body).tokens,
        match fields_at(old(body).seq(), old(body).at(), named) {
            Ok(fields) => {
                &&& r is Ok
                &&& r->Ok_0.deep_view() == fields
                &&& eof_at(final(body).seq(), final(body).at())
            },
            Err(e) => r == Err::<Vec<Field>, ParseError>(e),
        },
{
    let ghost s = body.seq();
    let ghost start = body.at();
    let mut fields: Vec<Field> = Vec::new();
    let mut more = true;
    while more
        invariant
            body.tokens == old(body).tokens,
            more ==> fields_at(s, start, named) == (match fields_at(s, body.at(), named) {
                Ok(rest) => Ok(fields.deep_view() + rest),
                Err(e) => Err(e),
            }),
            !more ==> eof_at(s, body.at()) && fields_at(s, start, named) == Ok::<
                Seq<crate::ast::FieldView>,
                ParseError,
            >(fields.deep_view()),
        decreases
                if more {
                    1 + (if body.at() <= s.len() {
                        s.len() - body.at()
                    } else {
                        0
                    })
                } else {
                    0
                },
    {
        let ghost before = fields.deep_view();
        let ghost here = body.at();
        if next_eof(body).is_some() {
            more = false;
        } else {
            match next_field(body, named) {
                Ok(field) => {
                    fields.push(field);
                    proof {
                        lemma_field_span(s, here, named);
                        assert(fields.deep_view() =~= before.push(field@));
                        if let Ok(rest) = fields_at(s, body.at(), named) {
                            assert(before + (seq![field@] + rest) =~= before.push(field@) + rest);
                        }
                    }
                },
                Err(e) => {
                    return Err(e);
                },
            }
        }
    }
    Ok(fields)
}

/// Says whether a body in these brackets holds named fields.
fn named_body(delimiter: Delimiter) -> (r: Result<bool, ParseError>)
    ensures
        r == body_is_named(delimiter),
{
    match delimiter {
        Delimiter::Parenthesis => Ok(false),
        Delimiter::Brace => Ok(true),
        _ => Err(ParseError::UnsupportedDelimiter),
    }
}

/// Reads a struct from its name on: the name alone, the name and a braced
/// body of named fields, or the name, a parenthesised body of positional
/// fields and `;`. The attributes of the result are left empty.
pub fn next_struct(source: &mut Cursor) -> (r: Result<Struct, ParseError>)
    ensures
        final(source).tokens == old(source).tokens,
        match struct_at(old(source).seq(), old(source).at()) {
            Ok((parsed, n)) => {
                &&& r is Ok
                &&& r->Ok_0@ == parsed
                &&& final(source).at() == old(source).at() + n
            },
            Err(e) => r == Err::<Struct, ParseError>(e),
        },
{
    let name = match next_ident(source) {
        Some(name) => name,
        None => {
            return Err(ParseError::ExpectedStructName);
        },
    };
    let group = match next_group(source) {
        Some(group) => group,
        None => {
            let unit = Struct { name, named: false, fields: Vec::new(), attributes: Vec::new() };
            assert(unit.fields.deep_view() =~= Seq::<crate::ast::FieldView>::empty());
            assert(unit.attributes.deep_view() =~= Seq::<crate::ast::AttributeView>::empty());
            return Ok(unit);
        },
    };
    let named = match named_body(group.delimiter) {
        Ok(named) => named,
        Err(e) => {
            return Err(e);
        },
    };
    let mut body = Cursor::new(&group.stream);
    let fields = match next_fields(&mut body, named) {
        Ok(fields) => fields,
        Err(e) => {
            return Err(e);
        },
    };
    if !named {
        if next_exact_punct(source, ";").is_none() {
            return Err(ParseError::ExpectedSemicolon);
        }
    }
    let parsed = Struct { name, named, fields, attributes: Vec::new() };
    assert(parsed.attributes.deep_view() =~= Seq::<crate::ast::AttributeView>::empty());
    Ok(parsed)
}

/// Reads one variant of an enum: its name, an optional body of fields, and
/// the optional `;` and `,` behind it.
pub fn next_variant(body: &mut Cursor) -> (r: Result<EnumVariant, ParseError>)
    ensures
        final(body).tokens == old(body).tokens,
        match variant_at(old(body).seq(), old(body).at()) {
            Ok((variant, n)) => {
                &&& r is Ok
                &&& r->Ok_0@ == variant
                &&& final(body).at() == old(body).at() + n
                &&& final(body).at() <= final(body).seq().len()
            },
            Err(e) => r == Err::<EnumVariant, ParseError>(e),
        },
{
    let name = match next_ident(body) {
        Some(name) => name,
        None => {
            return Err(ParseError::ExpectedVariantName);
        },
    };
    let group = match next_group(body) {
        Some(group) => group,
        None => {
            let _ = next_exact_punct(body, ",");
            let unit = EnumVariant { name, named: false, fields: Vec::new() };
            assert(unit.fields.deep_view() =~= Seq::<crate::ast::FieldView>::empty());
            return Ok(unit);
        },
    };
    let named = match named_body(group.delimiter) {
        Ok(named) => named,
        Err(e) => {
            return Err(e);
        },
    };
    let mut inner = Cursor::new(&group.stream);
    let fields = match next_fields(&mut inner, named) {
        Ok(fields) => fields,
        Err(e) => {
            return Err(e);
        },
    };
    let _ = next_exact_punct(body, ";");
    let _ = next_exact_punct(body, ",");
    Ok(EnumVariant { name, named, fields })
}

/// Reads an enum from its name on: the name and a braced body of variants.
/// The attributes of the result are left empty.
#[verifier::loop_isolation(false)]
pub fn next_enum(source: &mut Cursor) -> (r: Result<Enum, ParseError>)
    ensures
        final(source).tokens == old(source).tokens,
        match enum_at(old(source).seq(), old(source).at()) {
            Ok((parsed, n)) => {
                &&& r is Ok
                &&& r->Ok_0@ == parsed
                &&& final(source).at() == old(source).at() + n
            },
            Err(e) => r == Err::<Enum, ParseError>(e),
        },
{
    let name = match next_ident(source) {
        Some(name) => name,
        None => {
            return Err(ParseError::ExpectedEnumName);
        },
    };
    let group = match next_group(source) {
        Some(group) => group,
        None => {
            let unit = Enum { name, variants: Vec::new(), attributes: Vec::new() };
            assert(unit.variants.deep_view() =~= Seq::<crate::ast::EnumVariantView>::empty());
            assert(unit.attributes.deep_view() =~= Seq::<crate::ast::AttributeView>::empty());
            return Ok(unit);
        },
    };
    match group.delimiter {
        Delimiter::Brace => {},
        _ => {
            return Err(ParseError::UnsupportedDelimiter);
        },
    }
    let ghost b = group.stream@;
    let mut body = Cursor::new(&group.stream);
    let mut variants: Vec<EnumVariant> = Vec::new();
    let mut more = true;
    while more
        invariant
            body.seq() == b,
            body.at() <= b.len(),
            more ==> variants_at(b, 0) == (match variants_at(b, body.at()) {
                Ok(rest) => Ok(variants.deep_view() + rest),
                Err(e) => Err(e),
            }),
            !more ==> variants_at(b, 0) == Ok::<Seq<crate::ast::EnumVariantView>, ParseError>(
                variants.deep_view(),
            ),
        decreases
                if more {
                    1 + b.len() - body.at()
                } else {
                    0
                },
    {
        let ghost before = variants.deep_view();
        if next_eof(&mut body).is_some() {
            more = false;
        } else {
            match next_variant(&mut body) {
                Ok(variant) => {
                    variants.push(variant);
                    proof {
                        assert(variants.deep_view() =~= before.push(variant@));
                        if let Ok(rest) = variants_at(b, body.at()) {
                            assert(before + (seq![variant@] + rest) =~= before.push(variant@)
                                + rest);
                        }
                    }
                },
                Err(e) => {
                    return Err(e);
                },
            }
        }
    }
    let parsed = Enum { name, variants, attributes: Vec::new() };
    assert(parsed.attributes.deep_view() =~= Seq::<crate::ast::AttributeView>::empty());
    Ok(parsed)
}

/// Reads the keyword of a declaration, behind an optional visibility
/// modifier.
fn next_keyword(source: &mut Cursor) -> (r: Result<String, ParseError>)
    ensures
        final(source).tokens == old(source).tokens,
        match keyword_at(old(source).seq(), old(source).at()) {
            Ok((keyword, n)) => {
                &&& r is Ok
                &&& r->Ok_0@ == keyword
                &&& final(source).at() == old(source).at() + n
            },
            Err(e) => r == Err::<String, ParseError>(e),
        },
{
    let _ = next_visibility_modifier(source);
    match next_ident(source) {
        Some(keyword) => Ok(keyword),
        None => Err(ParseError::ExpectedKeyword),
    }
}

/// Parses the tokens of one declaration. The whole input must be the
/// declaration: anything left over is an error, as is a union.
pub fn parse_data(input: &Vec<Token>) -> (r: Result<Data, ParseError>)
    ensures
        match declaration(input@) {
            Ok(data) => r is Ok && r->Ok_0@ == data,
            Err(e) => r == Err::<Data, ParseError>(e),
        },
{
    let mut source = Cursor::new(input);
    let attributes = match next_attributes_list(&mut source) {
        Ok(attributes) => attributes,
        Err(e) => {
            return Err(e);
        },
    };
    let keyword = match next_keyword(&mut source) {
        Ok(keyword) => keyword,
        Err(e) => {
            return Err(e);
        },
    };
    let data = if str_eq(keyword.as_str(), "struct") {
        let mut parsed = match next_struct(&mut source) {
            Ok(parsed) => parsed,
            Err(e) => {
                return Err(e);
            },
        };
        parsed.attributes = attributes;
        Data::Struct(parsed)
    } else if str_eq(keyword.as_str(), "enum") {
        let mut parsed = match next_enum(&mut source) {
            Ok(parsed) => parsed,
            Err(e) => {
                return Err(e);
            },
        };
        parsed.attributes = attributes;
        Data::Enum(parsed)
    } else if str_eq(keyword.as_str(), "union") {
        return Err(ParseError::UnsupportedUnion);
    } else {
        return Err(ParseError::UnexpectedKeyword);
    };
    if next_eof(&mut source).is_none() {
        return Err(ParseError::TrailingTokens);
    }
    Ok(data)
}

} // verus!
