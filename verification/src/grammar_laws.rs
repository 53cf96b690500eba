//! What holds of the grammar: which declarations are refused, and what
//! every parsed declaration is like.

use crate::ast::{DataView, FieldView, TypeView};
use crate::grammar::{
    as_written, attribute_args_at, attribute_at, attributes_at, body_is_named, declaration,
    field_at, field_type_start, fields_at, keyword_at, keyword_of, lemma_field_span,
    lemma_path_tail_span, name_position, path_tail_at, type_args_at, type_at, type_word_at,
    visibility_len, ParseError,
};
use crate::token::{eof_at, exact_punct_at, group_at, ident_at, literal_at, Token};
use vstd::prelude::*;

verus! {

/// A declaration under the keyword `union` is refused.
pub proof fn law_union_rejected(s: Seq<Token>)
    requires
        keyword_of(s) == Some("union"@),
    ensures
        declaration(s) == Err::<DataView, ParseError>(ParseError::UnsupportedUnion),
{
    reveal_strlit("union");
    reveal_strlit("struct");
    reveal_strlit("enum");
    assert("union"@.len() == 5);
}

/// The tokens of a visibility modifier: the keyword `pub`, alone or with one
/// group behind it, whatever the group holds.
pub open spec fn is_visibility(v: Seq<Token>) -> bool {
    &&& 1 <= v.len() <= 2
    &&& v[0].ident_text() == Some("pub"@)
    &&& v.len() == 2 ==> v[1].group() is Some
}

/// A visibility modifier of any form in front of a declaration is read over:
/// the declaration parses as it does without it. The declaration must not
/// itself start with a metadata block or a visibility modifier, nor, behind
/// a bare `pub`, with a group.
pub proof fn law_visibility_read_over(v: Seq<Token>, s: Seq<Token>)
    requires
        is_visibility(v),
        exact_punct_at(s, 0, "#"@) is None,
        visibility_len(s, 0) == 0,
        v.len() == 1 ==> group_at(s, 0) is None,
    ensures
        declaration(v + s) == declaration(s),
{
    let t = v + s;
    let k = v.len() as int;
    assert(forall|j: int| 0 <= j < s.len() ==> t[j + k] == s[j]);
    assert(t[0] == v[0]);
    if k == 2 {
        assert(t[1] == v[1]);
    }
    assert(attributes_at(t, 0) == attributes_at(s, 0));
    assert(group_at(t, k) == group_at(s, 0));
    assert(visibility_len(t, 0) == k);
    assert(ident_at(t, k) == ident_at(s, 0));
    assert(ident_at(t, k + 1) == ident_at(s, 1));
    assert(group_at(t, k + 2) == group_at(s, 2));
    assert(exact_punct_at(t, k + 3, ";"@) == exact_punct_at(s, 3, ";"@));
    assert(forall|m: int| m >= 0 ==> eof_at(t, k + m) == eof_at(s, m));
}

/// The number of tokens that a construct spans.
pub open spec fn taken<T>(parsed: Result<(T, nat), ParseError>) -> int {
    match parsed {
        Ok((_, n)) => n as int,
        Err(_) => 0,
    }
}

/// A run of metadata blocks that ends before the last token of `s` reads
/// the same when tokens are added behind `s`.
proof fn lemma_attributes_prefix(s: Seq<Token>, t: Seq<Token>, i: int)
    requires
        s.len() <= t.len(),
        forall|j: int| 0 <= j < s.len() ==> s[j] == t[j],
        attributes_at(s, i) is Ok,
        0 <= i,
        i + taken(attributes_at(s, i)) < s.len(),
    ensures
        attributes_at(t, i) == attributes_at(s, i),
    decreases s.len() - i,
{
    match attribute_at(s, i) {
        Ok(Some(_)) => {
            assert(s[i] == t[i]);
            lemma_attributes_prefix(s, t, i + 2);
        },
        _ => {},
    }
}

/// A declaration that parses and ends with its body or with `;` is refused
/// as soon as any token follows it.
pub proof fn law_trailing_tokens_rejected(s: Seq<Token>, extra: Seq<Token>)
    requires
        declaration(s) is Ok,
        s.len() > 0,
        s.last().group() is Some || s.last().punct_text() == Some(";"@),
        extra.len() > 0,
    ensures
        declaration(s + extra) == Err::<DataView, ParseError>(
            ParseError::TrailingTokens,
        ),
{
    reveal_strlit("union");
    reveal_strlit("struct");
    reveal_strlit("enum");
    assert("union"@.len() == 5);
    assert("struct"@.len() == 6);
    assert("enum"@.len() == 4);
    let t = s + extra;
    assert(forall|j: int| 0 <= j < s.len() ==> s[j] == t[j]);
    let n = taken(attributes_at(s, 0));
    assert(ident_at(s, n) is Some);
    lemma_attributes_prefix(s, t, 0);
    let k = taken(keyword_at(s, n));
    assert(s[n] == t[n]);
    if k >= 2 {
        assert(s[n + 1] == t[n + 1]);
    }
    if k == 3 {
        assert(s[n + 2] == t[n + 2]);
    }
    assert(keyword_at(t, n) == keyword_at(s, n));
    let p = n + k;
    assert(ident_at(s, p) is Some);
    assert(s[p] == t[p]);
    if group_at(s, p + 1) is Some {
        assert(s[p + 1] == t[p + 1]);
        if p + 2 < s.len() {
            assert(s[p + 2] == t[p + 2]);
        }
    } else {
        assert(s.last() == s[p]);
    }
}

/// A field at position `i` that has, where its type should start, a token
/// that is no identifier, or the keyword `dyn`, fails: so do references,
/// slices, arrays, tuples, lifetimes and trait objects.
pub proof fn law_unsupported_type_rejected(s: Seq<Token>, i: int, named: bool)
    requires
        field_type_start(s, i, named) is Some,
        type_word_at(s, field_type_start(s, i, named)->0) is None,
    ensures
        field_at(s, i, named) == Err::<(FieldView, nat), ParseError>(
            ParseError::ExpectedFieldType,
        ),
{
    reveal(field_at);
}

/// Whether reading the fields of a body from position `from` on comes to
/// read a field at position `i`.
pub open spec fn field_starts_at(b: Seq<Token>, named: bool, from: int, i: int) -> bool
    decreases b.len() - from,
{
    if from == i {
        true
    } else if from < i && !eof_at(b, from) {
        match field_at(b, from, named) {
            Ok((_, n)) => {
                proof {
                    lemma_field_span(b, from, named);
                }
                field_starts_at(b, named, from + n, i)
            },
            Err(_) => false,
        }
    } else {
        false
    }
}

/// A field that fails makes the whole body fail in the same way.
pub proof fn law_field_error_fails_body(b: Seq<Token>, named: bool, i: int)
    requires
        field_starts_at(b, named, 0, i),
        !eof_at(b, i),
        field_at(b, i, named) is Err,
    ensures
        fields_at(b, 0, named) == Err::<Seq<FieldView>, ParseError>(
            field_at(b, i, named)->Err_0,
        ),
{
    lemma_fields_error_from(b, named, 0, i, field_at(b, i, named)->Err_0);
}

/// Where reading the fields from position `i` fails, and reading from
/// position `from` comes to position `i`, reading from there fails the same
/// way.
proof fn lemma_fields_error_from(b: Seq<Token>, named: bool, from: int, i: int, e: ParseError)
    requires
        field_starts_at(b, named, from, i),
        fields_at(b, i, named) == Err::<Seq<FieldView>, ParseError>(e),
    ensures
        fields_at(b, from, named) == Err::<Seq<FieldView>, ParseError>(e),
    decreases b.len() - from,
{
    if from != i {
        match field_at(b, from, named) {
            Ok((_, n)) => {
                lemma_field_span(b, from, named);
                lemma_fields_error_from(b, named, from + n, i, e);
            },
            Err(_) => {},
        }
    }
}

/// A struct whose body fails fails in the same way.
pub proof fn law_body_error_fails_declaration(s: Seq<Token>, e: ParseError)
    requires
        keyword_of(s) == Some("struct"@),
        ident_at(s, name_position(s)) is Some,
        group_at(s, name_position(s) + 1) is Some,
        body_is_named(group_at(s, name_position(s) + 1)->0.delimiter) is Ok,
        fields_at(
            group_at(s, name_position(s) + 1)->0.stream@,
            0,
            body_is_named(group_at(s, name_position(s) + 1)->0.delimiter)->Ok_0,
        ) == Err::<Seq<FieldView>, ParseError>(e),
    ensures
        declaration(s) == Err::<DataView, ParseError>(e),
{
}

/// The arguments of the marker are a single flag word or keys with their
/// values: a list of one, or of an even number that is not zero. Only a list
/// that starts the group can be a flag.
pub proof fn law_attribute_flag_or_pairs(a: Seq<Token>, i: int)
    ensures
        match attribute_args_at(a, i) {
            Ok(tokens) => {
                &&& tokens.len() >= 1
                &&& tokens.len() == 1 || tokens.len() % 2 == 0
                &&& tokens.len() == 1 ==> i == 0
            },
            Err(_) => true,
        },
    decreases a.len() - i,
{
    if ident_at(a, i) is Some && exact_punct_at(a, i + 1, "="@) is Some && literal_at(a, i + 2)
        is Some && !eof_at(a, i + 3) {
        law_attribute_flag_or_pairs(a, i + 3);
    }
}

/// The optional wrapper is unwrapped one level only: around a single
/// argument it gives an optional type whose path is the argument as it was
/// written, so that a wrapper inside the argument stays in the path.
pub proof fn law_one_level_unwrapped(s: Seq<Token>, i: int, argument: TypeView, n: nat)
    requires
        ident_at(s, i) == Some("Option"@),
        exact_punct_at(s, i + 1, "<"@) is Some,
        type_at(s, i + 2) == Ok::<Option<(TypeView, nat)>, ParseError>(Some((argument, n))),
        exact_punct_at(s, i + 2 + n, ">"@) is Some,
    ensures
        type_at(s, i) == Ok::<Option<(TypeView, nat)>, ParseError>(
            Some((TypeView { is_option: true, path: as_written(argument) }, (n + 3) as nat)),
        ),
{
    reveal_strlit("Option");
    reveal_strlit("dyn");
    reveal_strlit("<");
    reveal_strlit(">");
    reveal_strlit(":");
    reveal_strlit(",");
    assert("Option"@.len() == 6);
    assert("dyn"@.len() == 3);
    assert("<"@[0] == '<');
    assert(">"@[0] == '>');
    assert(":"@[0] == ':');
    assert(","@[0] == ',');
    assert(path_tail_at(s, i + 1) == Ok::<(Seq<char>, nat), ParseError>((Seq::empty(), 0)));
    assert("Option"@ + Seq::<char>::empty() =~= "Option"@);
}

/// Whether every identifier among the tokens has at least one character.
pub open spec fn idents_nonempty(s: Seq<Token>) -> bool {
    forall|j: int|
        0 <= j < s.len() && (#[trigger] s[j]).ident_text() is Some ==> s[j].ident_text()->0.len()
            > 0
}

/// The path of a parsed type is never empty, where no identifier is.
pub proof fn law_type_path_never_empty(s: Seq<Token>, i: int)
    requires
        idents_nonempty(s),
    ensures
        match type_at(s, i) {
            Ok(Some((ty, _))) => ty.path.len() > 0,
            _ => true,
        },
    decreases s.len() - i, 0nat,
{
    if ident_at(s, i) is Some {
        lemma_path_tail_span(s, i + 1);
        match path_tail_at(s, i + 1) {
            Ok((_, n)) => {
                if exact_punct_at(s, i + 1 + n, "<"@) is Some {
                    lemma_args_never_empty(s, i + n + 2);
                }
            },
            Err(_) => {},
        }
    }
}

/// The joined paths of generic arguments are never empty, where no
/// identifier is.
proof fn lemma_args_never_empty(s: Seq<Token>, i: int)
    requires
        idents_nonempty(s),
    ensures
        match type_args_at(s, i) {
            Ok((args, _, _)) => args.len() > 0,
            Err(_) => true,
        },
    decreases s.len() - i, 1nat,
{
    law_type_path_never_empty(s, i);
}

} // verus!
