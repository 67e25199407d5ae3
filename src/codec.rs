//! The canonical JSON encoding of a classification, and its decoding.

use vstd::prelude::*;
use vstd::string::*;

use crate::json::{
    json_nullable_string, json_object_members, json_quoted, members_view, quote,
    read_nullable_string, read_object,
};
use crate::model::{
    intent_name, intent_named, ClassificationModel, ClassificationResult, Intent, Params,
    ParamsModel,
};
use crate::text::same_text;

verus! {

/// Why JSON text could not be decoded.
#[derive(Clone, Copy, Debug, PartialEq, Eq, Structural)]
pub enum DecodeError {
    /// The text is not well-formed JSON.
    Syntax,
    /// Well-formed JSON, but not of the required shape: a field is missing,
    /// of the wrong kind, or the intent name is unknown.
    Shape,
}

/// The JSON text for an optional string: its literal, or `null`.
pub open spec fn nullable_json(o: Option<Seq<char>>) -> Seq<char> {
    match o {
        Some(t) => json_quoted(t),
        None => "null"@,
    }
}

/// The canonical JSON text of parameters: both fields, in this order.
pub open spec fn params_json(p: ParamsModel) -> Seq<char> {
    "{\"recipient\":"@ + nullable_json(p.recipient) + ",\"message\":"@ + nullable_json(p.message)
        + "}"@
}

/// The canonical JSON text of a classification, on one line.
pub open spec fn classification_json(c: ClassificationModel) -> Seq<char> {
    "{\"intent\":\""@ + intent_name(c.intent) + "\",\"params\":"@ + params_json(c.params) + "}"@
}

/// The index of the first member whose key is `key`, from `i` on.
pub open spec fn member_index_from(m: Seq<(Seq<char>, Seq<char>)>, key: Seq<char>, i: int) -> Option<int>
    decreases m.len() + 1 - i,
{
    if i < 0 || i >= m.len() {
        None
    } else if m[i].0 == key {
        Some(i)
    } else {
        member_index_from(m, key, i + 1)
    }
}

/// The value text of the member whose key is `key`.
pub open spec fn member(m: Seq<(Seq<char>, Seq<char>)>, key: Seq<char>) -> Option<Seq<char>> {
    match member_index_from(m, key, 0) {
        Some(i) => Some(m[i].1),
        None => None,
    }
}

/// An optional string field: absent and null both read as `None`; anything
/// but a string or null is refused.
pub open spec fn optional_field(m: Seq<(Seq<char>, Seq<char>)>, key: Seq<char>) -> Option<Option<Seq<char>>> {
    match member(m, key) {
        None => Some(None),
        Some(t) => json_nullable_string(t),
    }
}

/// The parameters that the members of a JSON object give.
pub open spec fn params_of_members(m: Seq<(Seq<char>, Seq<char>)>) -> Result<ParamsModel, DecodeError> {
    match (optional_field(m, "recipient"@), optional_field(m, "message"@)) {
        (Some(r), Some(msg)) => Ok(ParamsModel { recipient: r, message: msg }),
        _ => Err(DecodeError::Shape),
    }
}

/// What decoding JSON text `s` as parameters gives.
pub open spec fn decode_params(s: Seq<char>) -> Result<ParamsModel, DecodeError> {
    match json_object_members(s) {
        None => Err(DecodeError::Syntax),
        Some(None) => Err(DecodeError::Shape),
        Some(Some(m)) => params_of_members(m),
    }
}

/// The intent that a member text names: a JSON string holding one of the
/// intent names exactly.
pub open spec fn intent_of_text(t: Seq<char>) -> Option<Intent> {
    match json_nullable_string(t) {
        Some(Some(n)) => intent_named(n),
        _ => None,
    }
}

/// The classification that the members of a JSON object give.
pub open spec fn classification_of_members(m: Seq<(Seq<char>, Seq<char>)>) -> Result<ClassificationModel, DecodeError> {
    match member(m, "intent"@) {
        None => Err(DecodeError::Shape),
        Some(it) => match intent_of_text(it) {
            None => Err(DecodeError::Shape),
            Some(intent) => match member(m, "params"@) {
                None => Err(DecodeError::Shape),
                Some(pt) => match json_object_members(pt) {
                    Some(Some(pm)) => match params_of_members(pm) {
                        Ok(params) => Ok(ClassificationModel { intent, params }),
                        Err(e) => Err(e),
                    },
                    _ => Err(DecodeError::Shape),
                },
            },
        },
    }
}

/// What decoding JSON text `s` as a classification gives.
pub open spec fn decode_classification(s: Seq<char>) -> Result<ClassificationModel, DecodeError> {
    match json_object_members(s) {
        None => Err(DecodeError::Syntax),
        Some(None) => Err(DecodeError::Shape),
        Some(Some(m)) => classification_of_members(m),
    }
}

/// The position of the member whose key is `key`.
fn find_member(m: &Vec<(String, String)>, key: &str) -> (r: Option<usize>)
    ensures
        match r {
            Some(i) => member_index_from(members_view(m@), key@, 0) == Some(i as int)
                && i < m@.len(),
            None => member_index_from(members_view(m@), key@, 0) is None,
        },
{
    let ghost mv = members_view(m@);
    let mut i: usize = 0;
    while i < m.len()
        invariant
            mv == members_view(m@),
            i <= m@.len(),
            member_index_from(mv, key@, 0) == member_index_from(mv, key@, i as int),
        decreases m@.len() - i,
    {
        if same_text(m[i].0.as_str(), key) {
            return Some(i);
        }
        i = i + 1;
    }
    None
}

/// Read an optional string field from the members of an object.
fn read_optional_field(m: &Vec<(String, String)>, key: &str) -> (r: Option<Option<String>>)
    ensures
        match r {
            None => optional_field(members_view(m@), key@) is None,
            Some(None) => optional_field(members_view(m@), key@) == Some(None::<Seq<char>>),
            Some(Some(t)) => optional_field(members_view(m@), key@) == Some(Some(t@)),
        },
{
    match find_member(m, key) {
        None => Some(None),
        Some(i) => read_nullable_string(m[i].1.as_str()),
    }
}

/// Build parameters from the members of a JSON object.
fn params_from_members(m: &Vec<(String, String)>) -> (r: Result<Params, DecodeError>)
    ensures
        match r {
            Ok(p) => params_of_members(members_view(m@)) == Ok::<ParamsModel, DecodeError>(p@),
            Err(e) => params_of_members(members_view(m@)) == Err::<ParamsModel, DecodeError>(e),
        },
{
    let recipient = read_optional_field(m, "recipient");
    let message = read_optional_field(m, "message");
    match (recipient, message) {
        (Some(r), Some(msg)) => Ok(Params::new(r, msg)),
        _ => Err(DecodeError::Shape),
    }
}

/// The intent whose name is exactly `n`.
pub fn intent_from_name(n: &str) -> (r: Option<Intent>)
    ensures
        r == intent_named(n@),
{
    if same_text(n, "SendEmail") {
        Some(Intent::SendEmail)
    } else if same_text(n, "ScheduleMeeting") {
        Some(Intent::ScheduleMeeting)
    } else if same_text(n, "NoAction") {
        Some(Intent::NoAction)
    } else {
        None
    }
}

/// Append the JSON text of an optional string.
fn push_nullable(out: &mut String, o: Option<&str>)
    ensures
        final(out)@ == old(out)@ + nullable_json(match o {
            Some(t) => Some(t@),
            None => None,
        }),
{
    match o {
        Some(t) => {
            let q = quote(t);
            out.append(q.as_str());
        },
        None => out.append("null"),
    }
}

/// Append the canonical JSON text of parameters.
fn push_params(out: &mut String, p: &Params)
    ensures
        final(out)@ == old(out)@ + params_json(p@),
{
    let ghost start = out@;
    out.append("{\"recipient\":");
    push_nullable(out, p.recipient());
    out.append(",\"message\":");
    push_nullable(out, p.message());
    out.append("}");
    assert(out@ =~= start + params_json(p@));
}

impl Params {
    /// Decode parameters from JSON text; absent and null fields are both
    /// `None`, and other members are ignored.
    pub fn from_json_str(json_str: &str) -> (r: Result<Params, DecodeError>)
        ensures
            match r {
                Ok(p) => decode_params(json_str@) == Ok::<ParamsModel, DecodeError>(p@),
                Err(e) => decode_params(json_str@) == Err::<ParamsModel, DecodeError>(e),
            },
    {
        match read_object(json_str) {
            Err(_) => Err(DecodeError::Syntax),
            Ok(None) => Err(DecodeError::Shape),
            Ok(Some(m)) => params_from_members(&m),
        }
    }

    /// The canonical JSON text of these parameters, `null` for an absent field.
    pub fn to_json_string(&self) -> (r: Result<String, serde_json::Error>)
        ensures
            r matches Ok(t) && t@ == params_json(self@),
    {
        let mut out = String::new();
        push_params(&mut out, self);
        assert(out@ =~= params_json(self@));
        Ok(out)
    }
}

impl ClassificationResult {
    /// Decode a classification from JSON text.
    pub fn from_json_str(json_str: &str) -> (r: Result<ClassificationResult, DecodeError>)
        ensures
            match r {
                Ok(c) => decode_classification(json_str@) == Ok::<ClassificationModel, DecodeError>(c@),
                Err(e) => decode_classification(json_str@) == Err::<ClassificationModel, DecodeError>(e),
            },
    {
        let m = match read_object(json_str) {
            Err(_) => return Err(DecodeError::Syntax),
            Ok(None) => return Err(DecodeError::Shape),
            Ok(Some(m)) => m,
        };
        let intent = match find_member(&m, "intent") {
            None => return Err(DecodeError::Shape),
            Some(i) => match read_nullable_string(m[i].1.as_str()) {
                Some(Some(n)) => match intent_from_name(n.as_str()) {
                    Some(intent) => intent,
                    None => return Err(DecodeError::Shape),
                },
                _ => return Err(DecodeError::Shape),
            },
        };
        let pm = match find_member(&m, "params") {
            None => return Err(DecodeError::Shape),
            Some(i) => match read_object(m[i].1.as_str()) {
                Ok(Some(pm)) => pm,
                _ => return Err(DecodeError::Shape),
            },
        };
        match params_from_members(&pm) {
            Ok(params) => Ok(ClassificationResult::new(intent, params)),
            Err(e) => Err(e),
        }
    }

    /// The canonical JSON text of this classification, on one line.
    pub fn to_json_string(&self) -> (r: Result<String, serde_json::Error>)
        ensures
            r matches Ok(t) && t@ == classification_json(self@),
    {
        Ok(encode_classification(self.intent, &self.params))
    }
}

/// The canonical JSON text of an intent with its parameters, on one line.
pub fn encode_classification(intent: Intent, params: &Params) -> (r: String)
    ensures
        r@ == classification_json(ClassificationModel { intent, params: params@ }),
{
    let mut out = String::from_str("{\"intent\":\"");
    out.append(intent.name());
    out.append("\",\"params\":");
    push_params(&mut out, params);
    out.append("}");
    assert(out@ =~= classification_json(ClassificationModel { intent, params: params@ }));
    out
}

} // verus!
