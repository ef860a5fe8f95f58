//! What the library takes from serde_json: the split of a JSON array into its
//! elements and of a JSON object into its members. Both hand out the JSON text
//! of the parts just as it stands in the input, so nothing of a value is
//! interpreted here.

use serde_json::value::RawValue;
use std::collections::BTreeMap;
use vstd::prelude::*;

verus! {

/// The error type of serde_json (`serde_json::Error`), carried as an opaque
/// value.
#[verifier::external_type_specification]
#[verifier::external_body]
pub struct ExJsonError(serde_json::Error);

/// The elements of the JSON array that `text` is, each as its JSON text stands
/// in `text`; `None` where `text` is not a JSON array. This is what
/// `serde_json::from_str` makes of `text` when asked for a vector of raw
/// values.
pub uninterp spec fn json_array_elements(text: Seq<char>) -> Option<Seq<Seq<char>>>;

/// The members of the JSON object that `text` is, each with its name and with
/// its value as the value's JSON text stands in `text`; `None` where `text` is
/// not a JSON object. This is what `serde_json::from_str` makes of `text` when
/// asked for a map from names to raw values, the map taken in its own order:
/// a name that the object writes more than once stands once, with the value
/// that was written last.
pub uninterp spec fn json_object_members(text: Seq<char>) -> Option<Seq<(Seq<char>, Seq<char>)>>;

/// The views of a run of strings, in order.
pub open spec fn text_views(texts: Seq<String>) -> Seq<Seq<char>> {
    Seq::new(texts.len(), |i: int| texts[i]@)
}

/// The views of a run of name and value pairs, in order.
pub open spec fn member_views(members: Seq<(String, String)>) -> Seq<(Seq<char>, Seq<char>)> {
    Seq::new(members.len(), |i: int| (members[i].0@, members[i].1@))
}

/// Calls `serde_json::from_str` for a vector of raw values and copies the text
/// of each out. The contract only gives the outcome its name: the elements
/// are [`json_array_elements`] of the text, and the call fails exactly where
/// that is `None`.
#[verifier::external_body]
pub(crate) fn parse_array(text: &str) -> (parsed: Result<Vec<String>, serde_json::Error>)
    ensures
        parsed matches Ok(elements) ==> json_array_elements(text@) == Some(text_views(elements@)),
        parsed is Err ==> json_array_elements(text@) is None,
{
    let elements: Vec<Box<RawValue>> = serde_json::from_str(text)?;
    Ok(elements.iter().map(|element| element.get().to_owned()).collect())
}

/// Calls `serde_json::from_str` for a map from names to raw values and copies
/// each name and the text of each value out. The contract only gives the
/// outcome its name: the members are [`json_object_members`] of the text, and
/// the call fails exactly where that is `None`.
#[verifier::external_body]
pub(crate) fn parse_object(text: &str) -> (parsed: Result<Vec<(String, String)>, serde_json::Error>)
    ensures
        parsed matches Ok(members) ==> json_object_members(text@) == Some(member_views(members@)),
        parsed is Err ==> json_object_members(text@) is None,
{
    let members: BTreeMap<String, Box<RawValue>> = serde_json::from_str(text)?;
    Ok(members.into_iter().map(|(name, value)| (name, value.get().to_owned())).collect())
}

} // verus!
