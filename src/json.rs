//! The calls into serde_json that the document format rests on.
use vstd::prelude::*;

verus! {

/// The view of a list of string pairs.
pub open spec fn pairs_view(v: Seq<(String, String)>) -> Seq<(Seq<char>, Seq<char>)> {
    v.map_values(|e: (String, String)| (e.0@, e.1@))
}

/// The JSON string literal that serde_json writes for `s`, quotes and escapes included.
pub uninterp spec fn quoted(s: Seq<char>) -> Seq<char>;

/// The members of the JSON object that `text` holds, each key with the
/// compact JSON text of its value; `None` where `text` is not one JSON object.
pub uninterp spec fn object_members(text: Seq<char>) -> Option<Seq<(Seq<char>, Seq<char>)>>;

/// The string that the JSON text `text` holds; `None` where it is not one
/// JSON string.
pub uninterp spec fn string_value(text: Seq<char>) -> Option<Seq<char>>;

/// Relies on serde_json::to_string on a `str`: it writes `s` as one JSON string
/// literal. Serialising a `str` has no failure case.
#[verifier::external_body]
pub(crate) fn quote(s: &str) -> (r: String)
    ensures
        r@ == quoted(s@),
{
    match serde_json::to_string(s) {
        Ok(t) => t,
        Err(_) => String::new(),
    }
}

/// Relies on serde_json::from_str into a serde_json::Map, and on the compact
/// rendering (`Display`) of serde_json::Value for each member's value.
#[verifier::external_body]
pub(crate) fn parse_object(text: &str) -> (r: Option<Vec<(String, String)>>)
    ensures
        r.is_some() == object_members(text@).is_some(),
        r.is_some() ==> pairs_view(r.unwrap()@) == object_members(text@).unwrap(),
{
    match serde_json::from_str::<serde_json::Map<String, serde_json::Value>>(text) {
        Ok(m) => {
            let mut out = Vec::new();
            for (k, v) in m {
                out.push((k, v.to_string()));
            }
            Some(out)
        },
        Err(_) => None,
    }
}

/// Relies on serde_json::from_str into a `String`: it reads one JSON string.
#[verifier::external_body]
pub(crate) fn parse_string(text: &str) -> (r: Option<String>)
    ensures
        r.is_some() == string_value(text@).is_some(),
        r.is_some() ==> r.unwrap()@ == string_value(text@).unwrap(),
{
    match serde_json::from_str::<String>(text) {
        Ok(s) => Some(s),
        Err(_) => None,
    }
}

} // verus!
