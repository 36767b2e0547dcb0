//! Reading a claims payload out of a `serde_json::Value`.
//!
//! The accessors of `serde_json` are trusted; what they return is named here,
//! and the reader is verified against those names.

use vstd::prelude::*;
use vstd::string::*;
use crate::server::claims::{
    claim_views,
    item_views,
    Claim,
    ClaimShape,
    ClaimValue,
    ClaimView,
    ClaimsPayload,
    PayloadView,
    ShapeView,
    ValueView,
};

verus! {

/// `serde_json::Value`: a JSON value. Nothing inside it is visible here; what
/// its accessors return is named below.
#[verifier::external_type_specification]
#[verifier::external_body]
pub struct ExJsonValue(serde_json::Value);

/// The string that a JSON value is; `None` for a value that is no string.
pub uninterp spec fn json_str(value: serde_json::Value) -> Option<Seq<char>>;

/// The number that a JSON value is, where it is an integer that fits `u64`;
/// `None` for any other value.
pub uninterp spec fn json_u64(value: serde_json::Value) -> Option<u64>;

/// The items of a JSON array, in order; `None` for a value that is no array.
pub uninterp spec fn json_items(value: serde_json::Value) -> Option<Seq<serde_json::Value>>;

/// The members of a JSON object, each with its key, in the order in which the
/// object hands them out; `None` for a value that is no object.
pub uninterp spec fn json_members(value: serde_json::Value) -> Option<
    Seq<(Seq<char>, serde_json::Value)>,
>;

/// The JSON text that a value is written as.
pub uninterp spec fn json_text(value: serde_json::Value) -> Seq<char>;

/// The members that an object handed out, by the text of their keys.
pub open spec fn member_views(members: Seq<(&String, &serde_json::Value)>) -> Seq<
    (Seq<char>, serde_json::Value),
> {
    Seq::new(members.len(), |i: int| (members[i].0@, *members[i].1))
}

/// `serde_json::Value::as_str`: the string slice of a value that is a string,
/// `None` for any other value. The slice is named `json_str`.
#[verifier::external_body]
fn value_as_str<'a>(value: &'a serde_json::Value) -> (text: Option<&'a str>)
    ensures
        match text {
            Some(s) => json_str(*value) == Some(s@),
            None => json_str(*value) is None,
        },
{
    value.as_str()
}

/// `serde_json::Value::as_u64`: the number of a value that is an integer in
/// the range of `u64`, `None` for any other value. The result is named
/// `json_u64`.
#[verifier::external_body]
fn value_as_u64(value: &serde_json::Value) -> (number: Option<u64>)
    ensures
        number == json_u64(*value),
{
    value.as_u64()
}

/// `serde_json::Value::as_array`: the vector of a value that is an array,
/// `None` for any other value. The vector's items are named `json_items`.
#[verifier::external_body]
fn value_as_array<'a>(value: &'a serde_json::Value) -> (items: Option<&'a Vec<serde_json::Value>>)
    ensures
        match items {
            Some(list) => json_items(*value) == Some(list@),
            None => json_items(*value) is None,
        },
{
    value.as_array()
}

/// `serde_json::Value::as_object`, and the map's `iter`: the members of a
/// value that is an object, each key with its value, in the order of the
/// map's iterator; `None` for any other value. The members are named
/// `json_members`.
#[verifier::external_body]
fn value_members<'a>(value: &'a serde_json::Value) -> (members: Option<
    Vec<(&'a String, &'a serde_json::Value)>,
>)
    ensures
        match members {
            Some(list) => json_members(*value) == Some(member_views(list@)),
            None => json_members(*value) is None,
        },
{
    match value.as_object() {
        Some(object) => Some(object.iter().collect()),
        None => None,
    }
}

/// `serde_json::Value`'s `to_string`: the value written as compact JSON text.
/// The text is named `json_text`.
#[verifier::external_body]
fn value_to_string(value: &serde_json::Value) -> (text: String)
    ensures
        text@ == json_text(*value),
{
    value.to_string()
}

/// A value as text: a string's own content, any other value's JSON text.
pub open spec fn forced_text(value: serde_json::Value) -> Seq<char> {
    match json_str(value) {
        Some(s) => s,
        None => json_text(value),
    }
}

/// The items of an array as an array claim keeps them: the string of each item
/// that is one.
pub open spec fn item_texts(items: Seq<serde_json::Value>) -> Seq<Option<Seq<char>>> {
    Seq::new(items.len(), |i: int| json_str(items[i]))
}

/// The shape of a value.
pub open spec fn shape_of(value: serde_json::Value) -> ShapeView {
    if json_str(value) is Some {
        ShapeView::Text
    } else if json_u64(value) is Some {
        ShapeView::Unsigned(json_u64(value)->0)
    } else if json_items(value) is Some {
        ShapeView::List(item_texts(json_items(value)->0))
    } else {
        ShapeView::Other
    }
}

/// The claim value that a JSON value is read as.
pub open spec fn value_view(value: serde_json::Value) -> ValueView {
    ValueView { shape: shape_of(value), text: forced_text(value) }
}

/// The claims that the members of an object are read as.
pub open spec fn member_claims(members: Seq<(Seq<char>, serde_json::Value)>) -> Seq<ClaimView> {
    Seq::new(
        members.len(),
        |i: int| ClaimView { name: members[i].0, value: value_view(members[i].1) },
    )
}

/// The claims payload that a JSON value is read as.
pub open spec fn payload_view(value: serde_json::Value) -> PayloadView {
    match json_members(value) {
        Some(members) => PayloadView::Object(member_claims(members)),
        None => PayloadView::NotAnObject,
    }
}

/// Gives a value as text: the content of a string, the JSON text of anything
/// else.
pub fn force_as_string(value: &serde_json::Value) -> (text: String)
    ensures
        text@ == forced_text(*value),
{
    match value_as_str(value) {
        Some(strval) => String::from_str(strval),
        None => value_to_string(value),
    }
}

fn read_items(items: &Vec<serde_json::Value>) -> (read: Vec<Option<String>>)
    ensures
        item_views(read@) == item_texts(items@),
{
    let mut read: Vec<Option<String>> = Vec::new();
    let mut i: usize = 0;
    while i < items.len()
        invariant
            i <= items.len(),
            read@.len() == i,
            forall|j: int| 0 <= j < i ==> item_views(read@)[j] == json_str(items@[j]),
        decreases items.len() - i,
    {
        let item: Option<String> = match value_as_str(&items[i]) {
            Some(s) => Some(String::from_str(s)),
            None => None,
        };
        let ghost before = read@;
        read.push(item);
        assert forall|j: int| 0 <= j < i + 1 implies item_views(read@)[j] == json_str(
            items@[j],
        ) by {
            if j < i {
                assert(item_views(before)[j] == json_str(items@[j]));
                assert(read@[j] == before[j]);
            }
        }
        i = i + 1;
    }
    assert(item_views(read@) =~= item_texts(items@));
    read
}

/// Reads one claim value.
pub fn read_value(value: &serde_json::Value) -> (read: ClaimValue)
    ensures
        read@ == value_view(*value),
{
    let text: String = force_as_string(value);
    let shape: ClaimShape = if value_as_str(value).is_some() {
        ClaimShape::Text
    } else {
        match value_as_u64(value) {
            Some(number) => ClaimShape::Unsigned(number),
            None => match value_as_array(value) {
                Some(items) => ClaimShape::List(read_items(items)),
                None => ClaimShape::Other,
            },
        }
    };
    ClaimValue { shape, text }
}

/// Reads a claims payload: the members of an object, each as a claim, in the
/// order in which the object hands them out; `NotAnObject` for any other value.
pub fn read_claims(value: &serde_json::Value) -> (payload: ClaimsPayload)
    ensures
        payload@ == payload_view(*value),
{
    let members = match value_members(value) {
        None => {
            return ClaimsPayload::NotAnObject;
        },
        Some(members) => members,
    };
    let mut claims: Vec<Claim> = Vec::new();
    let mut i: usize = 0;
    while i < members.len()
        invariant
            i <= members.len(),
            claims@.len() == i,
            forall|j: int|
                0 <= j < i ==> claim_views(claims@)[j] == member_claims(member_views(members@))[j],
        decreases members.len() - i,
    {
        let claim: Claim = Claim { name: members[i].0.clone(), value: read_value(members[i].1) };
        let ghost before = claims@;
        claims.push(claim);
        assert forall|j: int| 0 <= j < i + 1 implies claim_views(claims@)[j] == member_claims(
            member_views(members@),
        )[j] by {
            if j < i {
                assert(claim_views(before)[j] == member_claims(member_views(members@))[j]);
                assert(claims@[j] == before[j]);
            }
        }
        i = i + 1;
    }
    assert(claim_views(claims@) =~= member_claims(member_views(members@)));
    ClaimsPayload::Object(claims)
}

} // verus!
