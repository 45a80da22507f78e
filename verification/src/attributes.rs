//! Descriptive key/value attributes.
//!
//! An event's descriptive record and each ticket carry a list of attributes:
//! string keys with string values. Numeric facets — capacity, the
//! registration window, the occurrence window, fees, ticket numbers — are
//! stored as decimal strings; a key that is absent from the list denotes the
//! unconstrained sentinel 0, never the bound 0 itself being enforced.

use vstd::prelude::*;

use crate::error::FoshoErrors;
use crate::text::{spec_parse_u32, spec_parse_u64, str_eq};

verus! {

/// One descriptive attribute.
#[derive(Clone, Debug, PartialEq, Eq)]
pub struct Attribute {
    pub key: String,
    pub value: String,
}

/// The mathematical content of an attribute: its key and value as character
/// sequences.
pub struct AttrView {
    pub key: Seq<char>,
    pub value: Seq<char>,
}

impl View for Attribute {
    type V = AttrView;

    open spec fn view(&self) -> AttrView {
        AttrView { key: self.key@, value: self.value@ }
    }
}

/// The views of a list of attributes.
pub open spec fn attrs_view(s: Seq<Attribute>) -> Seq<AttrView> {
    s.map_values(|a: Attribute| a@)
}

/// The first attribute with the given key, if any.
pub open spec fn find_attr(attrs: Seq<AttrView>, key: Seq<char>) -> Option<AttrView>
    decreases attrs.len(),
{
    if attrs.len() == 0 {
        None
    } else if attrs[0].key == key {
        Some(attrs[0])
    } else {
        find_attr(attrs.skip(1), key)
    }
}

/// Whether some attribute has the given key.
pub open spec fn has_attr(attrs: Seq<AttrView>, key: Seq<char>) -> bool {
    find_attr(attrs, key) is Some
}

/// The numeric facet stored under `key`: 0 when the key is absent, the
/// parsed value when it is a decimal `u64`, and an overflow error otherwise.
pub open spec fn attr_num_u64(attrs: Seq<AttrView>, key: Seq<char>) -> Result<u64, FoshoErrors> {
    match find_attr(attrs, key) {
        None => Ok(0u64),
        Some(a) => match spec_parse_u64(a.value) {
            Some(v) => Ok(v),
            None => Err(FoshoErrors::NumericalOverflow),
        },
    }
}

/// The numeric facet stored under `key`, read as a `u32`.
pub open spec fn attr_num_u32(attrs: Seq<AttrView>, key: Seq<char>) -> Result<u32, FoshoErrors> {
    match find_attr(attrs, key) {
        None => Ok(0u32),
        Some(a) => match spec_parse_u32(a.value) {
            Some(v) => Ok(v),
            None => Err(FoshoErrors::NumericalOverflow),
        },
    }
}

/// If the first `i` attributes miss `key`, the search outcome is decided by
/// the rest.
proof fn lemma_find_attr_skip(attrs: Seq<AttrView>, key: Seq<char>, i: int)
    requires
        0 <= i <= attrs.len(),
        forall|j: int| 0 <= j < i ==> attrs[j].key != key,
    ensures
        find_attr(attrs, key) == find_attr(attrs.skip(i), key),
    decreases i,
{
    if i == 0 {
        assert(attrs.skip(0) =~= attrs);
    } else {
        assert(attrs[0].key != key);
        assert forall|j: int| 0 <= j < i - 1 implies attrs.skip(1)[j].key != key by {
            assert(attrs.skip(1)[j] == attrs[j + 1]);
        }
        lemma_find_attr_skip(attrs.skip(1), key, i - 1);
        assert(attrs.skip(1).skip(i - 1) =~= attrs.skip(i));
    }
}

/// Searching a concatenation looks left first.
pub proof fn lemma_find_attr_concat(a: Seq<AttrView>, b: Seq<AttrView>, key: Seq<char>)
    ensures
        find_attr(a + b, key) == if has_attr(a, key) {
            find_attr(a, key)
        } else {
            find_attr(b, key)
        },
    decreases a.len(),
{
    if a.len() == 0 {
        assert(a + b =~= b);
    } else {
        assert((a + b)[0] == a[0]);
        if a[0].key != key {
            lemma_find_attr_concat(a.skip(1), b, key);
            assert((a + b).skip(1) =~= a.skip(1) + b);
        }
    }
}

/// What searching a one-entry list yields.
pub proof fn lemma_find_attr_singleton(a: AttrView, key: Seq<char>)
    ensures
        find_attr(seq![a], key) == if a.key == key {
            Some(a)
        } else {
            None::<AttrView>
        },
{
    assert(seq![a][0] == a);
    assert(seq![a].skip(1) =~= Seq::<AttrView>::empty());
    assert(find_attr(Seq::<AttrView>::empty(), key) is None);
}

/// A key that no attribute carries is not found.
pub proof fn lemma_find_attr_absent(attrs: Seq<AttrView>, key: Seq<char>)
    requires
        forall|j: int| 0 <= j < attrs.len() ==> attrs[j].key != key,
    ensures
        find_attr(attrs, key) is None,
{
    lemma_find_attr_skip(attrs, key, attrs.len() as int);
}

/// Appends a text-valued attribute.
pub fn push_text_attribute(list: &mut Vec<Attribute>, key: &str, value: String)
    ensures
        attrs_view(final(list)@) == attrs_view(old(list)@) + seq![
            AttrView { key: key@, value: value@ },
        ],
{
    let ghost value_view = value@;
    list.push(crate::utils::create_attribute(key, value));
    proof {
        assert(attrs_view(list@) =~= attrs_view(old(list)@) + seq![
            AttrView { key: key@, value: value_view },
        ]);
    }
}

/// Appends a numeric attribute, rendered as decimal digits.
pub fn push_num_attribute(list: &mut Vec<Attribute>, key: &str, value: u64)
    ensures
        attrs_view(final(list)@) == attrs_view(old(list)@) + seq![
            AttrView { key: key@, value: crate::text::spec_digits_of(value as nat) },
        ],
{
    push_text_attribute(list, key, crate::text::format_u64(value));
}

/// Finds the first attribute with the given key.
pub fn find_attribute<'a>(attrs: &'a Vec<Attribute>, key: &str) -> (r: Option<&'a Attribute>)
    ensures
        match r {
            Some(a) => find_attr(attrs_view(attrs@), key@) == Some(a@),
            None => find_attr(attrs_view(attrs@), key@) is None,
        },
{
    let ghost view = attrs_view(attrs@);
    let mut i: usize = 0;
    while i < attrs.len()
        invariant
            0 <= i <= attrs.len(),
            view == attrs_view(attrs@),
            view.len() == attrs@.len(),
            forall|j: int| 0 <= j < i ==> view[j].key != key@,
        decreases attrs.len() - i,
    {
        if str_eq(attrs[i].key.as_str(), key) {
            proof {
                lemma_find_attr_skip(view, key@, i as int);
                assert(view.skip(i as int)[0] == view[i as int]);
            }
            return Some(&attrs[i]);
        }
        i = i + 1;
    }
    proof {
        lemma_find_attr_absent(view, key@);
    }
    None
}

/// Reads the numeric facet stored under `key` as a `u64`.
pub fn get_u64_attribute(attrs: &Vec<Attribute>, key: &str) -> (r: Result<u64, FoshoErrors>)
    ensures
        r == attr_num_u64(attrs_view(attrs@), key@),
{
    match find_attribute(attrs, key) {
        None => Ok(0),
        Some(a) => match crate::text::parse_u64(a.value.as_str()) {
            Some(v) => Ok(v),
            None => Err(FoshoErrors::NumericalOverflow),
        },
    }
}

/// Reads the numeric facet stored under `key` as a `u32`.
pub fn get_u32_attribute(attrs: &Vec<Attribute>, key: &str) -> (r: Result<u32, FoshoErrors>)
    ensures
        r == attr_num_u32(attrs_view(attrs@), key@),
{
    match find_attribute(attrs, key) {
        None => Ok(0),
        Some(a) => match crate::text::parse_u32(a.value.as_str()) {
            Some(v) => Ok(v),
            None => Err(FoshoErrors::NumericalOverflow),
        },
    }
}

} // verus!
