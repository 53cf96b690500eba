//! Tokens of one declaration and the single-lookahead cursor over them.
//!
//! A declaration is a flat run of identifiers, punctuation and literals in
//! which every bracketed part has already been folded into one [`Group`].
//! The cursor primitives look at the token under the cursor and move past it
//! only when it is of the kind asked for.

use vstd::prelude::*;
use vstd::string::*;

verus! {

/// The bracket kind around a [`Group`].
#[derive(Clone, Copy, Debug, PartialEq, Eq, Structural)]
pub enum Delimiter {
    /// `( ... )`
    Parenthesis,
    /// `{ ... }`
    Brace,
    /// `[ ... ]`
    Bracket,
    /// No visible bracket.
    Invisible,
}

/// A bracketed part of a declaration: its bracket kind and what stands
/// between the brackets.
#[derive(Debug, PartialEq, Eq)]
pub struct Group {
    pub delimiter: Delimiter,
    pub stream: Vec<Token>,
}

/// One token. Identifiers, punctuation and literals carry their source text;
/// a literal keeps its quotes.
#[derive(Debug, PartialEq, Eq)]
pub enum Token {
    Ident(String),
    Punct(String),
    Literal(String),
    Group(Group),
}

impl Token {
    /// The text of an identifier token.
    pub open spec fn ident_text(self) -> Option<Seq<char>> {
        match self {
            Token::Ident(text) => Some(text@),
            _ => None,
        }
    }

    /// The text of a punctuation token.
    pub open spec fn punct_text(self) -> Option<Seq<char>> {
        match self {
            Token::Punct(text) => Some(text@),
            _ => None,
        }
    }

    /// The source text of a literal token, quotes included.
    pub open spec fn literal_text(self) -> Option<Seq<char>> {
        match self {
            Token::Literal(text) => Some(text@),
            _ => None,
        }
    }

    /// The group behind a group token.
    pub open spec fn group(self) -> Option<Group> {
        match self {
            Token::Group(group) => Some(group),
            _ => None,
        }
    }
}

/// The token at position `i` of `s`, if `i` is inside `s`.
pub open spec fn token_at(s: Seq<Token>, i: int) -> Option<Token> {
    if 0 <= i < s.len() {
        Some(s[i])
    } else {
        None
    }
}

/// The identifier at position `i`.
pub open spec fn ident_at(s: Seq<Token>, i: int) -> Option<Seq<char>> {
    match token_at(s, i) {
        Some(t) => t.ident_text(),
        None => None,
    }
}

/// The punctuation at position `i`.
pub open spec fn punct_at(s: Seq<Token>, i: int) -> Option<Seq<char>> {
    match token_at(s, i) {
        Some(t) => t.punct_text(),
        None => None,
    }
}

/// The punctuation at position `i`, if it reads exactly `pattern`.
pub open spec fn exact_punct_at(s: Seq<Token>, i: int, pattern: Seq<char>) -> Option<Seq<char>> {
    match punct_at(s, i) {
        Some(text) => if text == pattern {
            Some(text)
        } else {
            None
        },
        None => None,
    }
}

/// A literal's text without its surrounding pair of double quotes; text that
/// is not so quoted stays as it is.
pub open spec fn unquote(text: Seq<char>) -> Seq<char> {
    if text.len() >= 2 && text[0] == '"' && text[text.len() - 1] == '"' {
        text.subrange(1, text.len() - 1)
    } else {
        text
    }
}

/// The unquoted literal at position `i`.
pub open spec fn literal_at(s: Seq<Token>, i: int) -> Option<Seq<char>> {
    match token_at(s, i) {
        Some(t) => match t.literal_text() {
            Some(text) => Some(unquote(text)),
            None => None,
        },
        None => None,
    }
}

/// The group at position `i`.
pub open spec fn group_at(s: Seq<Token>, i: int) -> Option<Group> {
    match token_at(s, i) {
        Some(t) => t.group(),
        None => None,
    }
}

/// Whether position `i` is past the last token of `s`.
pub open spec fn eof_at(s: Seq<Token>, i: int) -> bool {
    i >= s.len()
}

/// The position after a visibility modifier that starts at `i`: past the
/// keyword `pub` and past one group directly behind it, whatever it holds.
/// `None` where no `pub` stands at `i`.
pub open spec fn visibility_end(s: Seq<Token>, i: int) -> Option<int> {
    if ident_at(s, i) == Some("pub"@) {
        if group_at(s, i + 1) is Some {
            Some(i + 2)
        } else {
            Some(i + 1)
        }
    } else {
        None
    }
}

/// A position in a token sequence.
pub struct Cursor<'a> {
    pub tokens: &'a Vec<Token>,
    pub pos: usize,
}

impl<'a> Cursor<'a> {
    /// A cursor at the first token of `tokens`.
    pub fn new(tokens: &'a Vec<Token>) -> (cursor: Cursor<'a>)
        ensures
            cursor.tokens == tokens,
            cursor.pos == 0,
    {
        Cursor { tokens, pos: 0 }
    }

    /// The tokens the cursor runs over.
    pub open spec fn seq(&self) -> Seq<Token> {
        self.tokens@
    }

    /// The cursor's position as a mathematical integer.
    pub open spec fn at(&self) -> int {
        self.pos as int
    }

    /// The same cursor moved to position `i`.
    pub open spec fn moved_to(&self, other: &Cursor<'a>, i: int) -> bool {
        other.tokens == self.tokens && other.pos as int == i
    }

    /// The token under the cursor.
    pub fn peek(&self) -> (t: Option<&'a Token>)
        ensures
            match token_at(self.seq(), self.at()) {
                Some(token) => t == Some(&token) && self.pos < usize::MAX,
                None => t is None,
            },
    {
        let tokens: &'a Vec<Token> = self.tokens;
        if self.pos < tokens.len() {
            Some(&tokens[self.pos])
        } else {
            None
        }
    }
}

/// Says whether two string slices hold the same characters.
pub fn str_eq(a: &str, b: &str) -> (same: bool)
    ensures
        same == (a@ == b@),
{
    let x = a.as_bytes();
    let y = b.as_bytes();
    proof {
        vstd::utf8::encode_utf8_decode_utf8(a@);
        vstd::utf8::encode_utf8_decode_utf8(b@);
    }
    if x.len() != y.len() {
        return false;
    }
    let mut i: usize = 0;
    while i < x.len()
        invariant
            i <= x.len(),
            x.len() == y.len(),
            x@ == vstd::utf8::encode_utf8(a@),
            y@ == vstd::utf8::encode_utf8(b@),
            forall|j: int| 0 <= j < i ==> x[j] == y[j],
        decreases x.len() - i,
    {
        if x[i] != y[i] {
            return false;
        }
        i = i + 1;
    }
    assert(x@ =~= y@);
    true
}

/// Takes the identifier under the cursor.
pub fn next_ident(source: &mut Cursor) -> (r: Option<String>)
    ensures
        match ident_at(old(source).seq(), old(source).at()) {
            Some(text) => r is Some && r->0@ == text && old(source).moved_to(
                final(source),
                old(source).at() + 1,
            ),
            None => r is None && *final(source) == *old(source),
        },
{
    match source.peek() {
        Some(Token::Ident(text)) => {
            source.pos = source.pos + 1;
            Some(text.clone())
        },
        _ => None,
    }
}

/// Takes the punctuation under the cursor, whatever it reads.
pub fn next_punct(source: &mut Cursor) -> (r: Option<String>)
    ensures
        match punct_at(old(source).seq(), old(source).at()) {
            Some(text) => r is Some && r->0@ == text && old(source).moved_to(
                final(source),
                old(source).at() + 1,
            ),
            None => r is None && *final(source) == *old(source),
        },
{
    match source.peek() {
        Some(Token::Punct(text)) => {
            source.pos = source.pos + 1;
            Some(text.clone())
        },
        _ => None,
    }
}

/// Takes the punctuation under the cursor if it reads exactly `pattern`.
pub fn next_exact_punct(source: &mut Cursor, pattern: &str) -> (r: Option<String>)
    ensures
        match exact_punct_at(old(source).seq(), old(source).at(), pattern@) {
            Some(text) => r is Some && r->0@ == text && old(source).moved_to(
                final(source),
                old(source).at() + 1,
            ),
            None => r is None && *final(source) == *old(source),
        },
{
    match source.peek() {
        Some(Token::Punct(text)) => {
            if str_eq(text.as_str(), pattern) {
                source.pos = source.pos + 1;
                Some(text.clone())
            } else {
                None
            }
        },
        _ => None,
    }
}

/// Removes the double quotes around a literal's text, where it has them.
pub fn strip_quotes(text: &str) -> (r: String)
    ensures
        r@ == unquote(text@),
{
    let n: usize = text.unicode_len();
    if n >= 2 && text.get_char(0) == '"' && text.get_char(n - 1) == '"' {
        text.substring_char(1, n - 1).to_owned()
    } else {
        text.to_owned()
    }
}

/// Takes the literal under the cursor and returns its text without the
/// surrounding quotes.
pub fn next_literal(source: &mut Cursor) -> (r: Option<String>)
    ensures
        match literal_at(old(source).seq(), old(source).at()) {
            Some(text) => r is Some && r->0@ == text && old(source).moved_to(
                final(source),
                old(source).at() + 1,
            ),
            None => r is None && *final(source) == *old(source),
        },
{
    match source.peek() {
        Some(Token::Literal(text)) => {
            source.pos = source.pos + 1;
            Some(strip_quotes(text.as_str()))
        },
        _ => None,
    }
}

/// Says whether the cursor is past the last token. Never moves the cursor.
pub fn next_eof(source: &mut Cursor) -> (r: Option<()>)
    ensures
        r is Some <==> eof_at(old(source).seq(), old(source).at()),
        *final(source) == *old(source),
{
    if source.pos >= source.tokens.len() {
        Some(())
    } else {
        None
    }
}

/// Takes the group under the cursor. To read what it holds, start a new
/// cursor on its `stream`.
pub fn next_group<'a>(source: &mut Cursor<'a>) -> (r: Option<&'a Group>)
    ensures
        match group_at(old(source).seq(), old(source).at()) {
            Some(group) => r == Some(&group) && old(source).moved_to(
                final(source),
                old(source).at() + 1,
            ),
            None => r is None && *final(source) == *old(source),
        },
{
    match source.peek() {
        Some(Token::Group(group)) => {
            source.pos = source.pos + 1;
            Some(group)
        },
        _ => None,
    }
}

/// Takes a visibility modifier: the keyword `pub` and, where one follows, a
/// group, whose contents are not looked at.
pub fn next_visibility_modifier(source: &mut Cursor) -> (r: Option<String>)
    ensures
        match visibility_end(old(source).seq(), old(source).at()) {
            Some(end) => r is Some && r->0@ == "pub"@ && old(source).moved_to(final(source), end),
            None => r is None && *final(source) == *old(source),
        },
{
    match source.peek() {
        Some(Token::Ident(text)) => {
            if str_eq(text.as_str(), "pub") {
                source.pos = source.pos + 1;
                let _ = next_group(source);
                Some("pub".to_owned())
            } else {
                None
            }
        },
        _ => None,
    }
}

} // verus!
