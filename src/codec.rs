use vstd::prelude::*;

use crate::store::{entries_view, keys_distinct, map_of};

verus! {

/// `serde_json::Error`, carried opaquely.
#[verifier::external_type_specification]
#[verifier::external_body]
pub struct ExJsonError(serde_json::Error);

/// The pretty-printed JSON object that serde_json writes for a mapping of
/// strings to strings, keys in ascending order.
pub uninterp spec fn pretty_json_of(records: Map<Seq<char>, Seq<char>>) -> Seq<char>;

/// The mapping that serde_json reads from a text as a JSON object of
/// strings, or `None` where the text is no such object.
pub uninterp spec fn parsed_json_of(text: Seq<char>) -> Option<Map<Seq<char>, Seq<char>>>;

/// Relies on `serde_json::to_string_pretty` applied to a `BTreeMap`: the map
/// walks its keys in order, so the text depends on the pairs alone. It fails
/// only where a `Serialize` impl fails or a map key is not a string, and
/// neither can happen for a map of strings to strings.
#[verifier::external_body]
pub(crate) fn to_pretty_json(entries: &Vec<(String, String)>) -> (r: Result<String, serde_json::Error>)
    requires
        keys_distinct(entries_view(entries@)),
    ensures
        r is Ok,
        r matches Ok(t) ==> t@ == pretty_json_of(map_of(entries_view(entries@))),
{
    let m: std::collections::BTreeMap<String, String> = entries.iter().cloned().collect();
    serde_json::to_string_pretty(&m)
}

/// Relies on `serde_json::from_str` into a `BTreeMap<String, String>`: the
/// outcome depends on the text alone, and the map hands out each key once.
#[verifier::external_body]
pub(crate) fn from_json(text: &str) -> (r: Result<Vec<(String, String)>, serde_json::Error>)
    ensures
        r matches Ok(v) ==> keys_distinct(entries_view(v@)),
        r matches Ok(v) ==> parsed_json_of(text@) == Some(map_of(entries_view(v@))),
        r is Err ==> parsed_json_of(text@) is None,
{
    serde_json::from_str::<std::collections::BTreeMap<String, String>>(text).map(
        |m| m.into_iter().collect(),
    )
}

} // verus!
