//! What this library takes from serde_json: reading JSON text and writing
//! JSON string literals.

use vstd::prelude::*;

verus! {

#[verifier::external_type_specification]
#[verifier::external_body]
pub struct ExJsonError(serde_json::Error);

/// The members of the object that JSON text `s` holds, each as its key and
/// the compact JSON text of its value: `None` where `s` is not JSON,
/// `Some(None)` where it is JSON but not an object.
pub uninterp spec fn json_object_members(s: Seq<char>) -> Option<Option<Seq<(Seq<char>, Seq<char>)>>>;

/// The string (`Some(Some(..))`) or null (`Some(None)`) that JSON text `s`
/// holds; `None` where it holds anything else or is not JSON.
pub uninterp spec fn json_nullable_string(s: Seq<char>) -> Option<Option<Seq<char>>>;

/// The JSON string literal for `s`, quotes and escapes included.
pub uninterp spec fn json_quoted(s: Seq<char>) -> Seq<char>;

/// The view of a list of key and value texts.
pub open spec fn members_view(v: Seq<(String, String)>) -> Seq<(Seq<char>, Seq<char>)> {
    v.map_values(|m: (String, String)| (m.0@, m.1@))
}

/// Relies on `serde_json::from_str::<serde_json::Value>` to read `s` as one
/// JSON value, and on `Display` of `serde_json::Value` for the compact text
/// of each member of an object.
#[verifier::external_body]
pub(crate) fn read_object(s: &str) -> (r: Result<Option<Vec<(String, String)>>, serde_json::Error>)
    ensures
        match r {
            Err(_) => json_object_members(s@) is None,
            Ok(None) => json_object_members(s@) == Some(None::<Seq<(Seq<char>, Seq<char>)>>),
            Ok(Some(v)) => json_object_members(s@) == Some(Some(members_view(v@))),
        },
{
    match serde_json::from_str::<serde_json::Value>(s) {
        Ok(serde_json::Value::Object(m)) => Ok(Some(m.into_iter().map(|(k, v)| (k, v.to_string())).collect())),
        Ok(_) => Ok(None),
        Err(e) => Err(e),
    }
}

/// Relies on `serde_json::from_str::<Option<String>>`: JSON text holding a
/// string or null.
#[verifier::external_body]
pub(crate) fn read_nullable_string(s: &str) -> (r: Option<Option<String>>)
    ensures
        match r {
            None => json_nullable_string(s@) is None,
            Some(None) => json_nullable_string(s@) == Some(None::<Seq<char>>),
            Some(Some(t)) => json_nullable_string(s@) == Some(Some(t@)),
        },
{
    serde_json::from_str::<Option<String>>(s).ok()
}

/// Relies on `serde_json::to_string::<str>`, which cannot fail on a string:
/// the JSON string literal for `s`.
#[verifier::external_body]
pub(crate) fn quote(s: &str) -> (r: String)
    ensures
        r@ == json_quoted(s@),
{
    match serde_json::to_string(s) {
        Ok(t) => t,
        Err(_) => String::new(),
    }
}

} // verus!
