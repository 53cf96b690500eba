//! The recognised annotations: `proxy = "Type"`, `rename = "key"` and the
//! flag `default`, looked up in a list of attributes.

use crate::ast::{Attribute, AttributeView};
use crate::token::str_eq;
use vstd::prelude::*;

verus! {

/// Whether `attribute` is the key/value pair with the key `key`.
pub open spec fn is_pair(attribute: AttributeView, key: Seq<char>) -> bool {
    attribute.tokens.len() == 2 && attribute.tokens[0] == key
}

/// Whether `attribute` is the single flag word `flag`.
pub open spec fn is_flag(attribute: AttributeView, flag: Seq<char>) -> bool {
    attribute.tokens.len() == 1 && attribute.tokens[0] == flag
}

/// The value of the first attribute from position `i` on that is a pair with
/// the key `key`.
pub open spec fn pair_value_from(attributes: Seq<AttributeView>, key: Seq<char>, i: int) -> Option<
    Seq<char>,
>
    decreases attributes.len() - i,
{
    if i < 0 || i >= attributes.len() {
        None
    } else if is_pair(attributes[i], key) {
        Some(attributes[i].tokens[1])
    } else {
        pair_value_from(attributes, key, i + 1)
    }
}

/// The value of the first attribute that is a pair with the key `key`.
pub open spec fn pair_value(attributes: Seq<AttributeView>, key: Seq<char>) -> Option<Seq<char>> {
    pair_value_from(attributes, key, 0)
}

/// Whether some attribute is the single flag word `flag`.
pub open spec fn has_flag(attributes: Seq<AttributeView>, flag: Seq<char>) -> bool {
    exists|i: int| 0 <= i < attributes.len() && is_flag(#[trigger] attributes[i], flag)
}

/// Looks up the first pair with the key `key`.
fn attrs_pair(attributes: &[Attribute], key: &str) -> (r: Option<String>)
    ensures
        r.deep_view() == pair_value(attributes.deep_view(), key@),
{
    let ghost views = attributes.deep_view();
    let mut i: usize = 0;
    while i < attributes.len()
        invariant
            i <= attributes.len(),
            views == attributes.deep_view(),
            views.len() == attributes.len(),
            pair_value(views, key@) == pair_value_from(views, key@, i as int),
        decreases attributes.len() - i,
    {
        let attribute = &attributes[i];
        if attribute.tokens.len() == 2 {
            if str_eq(attribute.tokens[0].as_str(), key) {
                return Some(attribute.tokens[1].clone());
            }
        }
        i = i + 1;
    }
    None
}

/// The type named by `proxy = "Type"`, where the declaration has one.
pub fn attrs_proxy(attributes: &[Attribute]) -> (r: Option<String>)
    ensures
        r.deep_view() == pair_value(attributes.deep_view(), "proxy"@),
{
    attrs_pair(attributes, "proxy")
}

/// The external key named by `rename = "key"`, where the field has one.
pub fn attrs_rename(attributes: &[Attribute]) -> (r: Option<String>)
    ensures
        r.deep_view() == pair_value(attributes.deep_view(), "rename"@),
{
    attrs_pair(attributes, "rename")
}

/// Whether the flag `default` is among the attributes.
pub fn attrs_default(attributes: &[Attribute]) -> (r: bool)
    ensures
        r == has_flag(attributes.deep_view(), "default"@),
{
    let ghost views = attributes.deep_view();
    let mut i: usize = 0;
    while i < attributes.len()
        invariant
            i <= attributes.len(),
            views == attributes.deep_view(),
            views.len() == attributes.len(),
            forall|j: int| 0 <= j < i ==> !is_flag(#[trigger] views[j], "default"@),
        decreases attributes.len() - i,
    {
        let attribute = &attributes[i];
        assert(views[i as int] == attribute.deep_view());
        if attribute.tokens.len() == 1 {
            if str_eq(attribute.tokens[0].as_str(), "default") {
                return true;
            }
        }
        i = i + 1;
    }
    false
}

} // verus!
