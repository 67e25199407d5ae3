//! The classification result: an intent and its optional parameters.

use vstd::prelude::*;

verus! {

/// What the user asked for; a closed set of names.
#[derive(Clone, Copy, Debug, PartialEq, Eq, Structural)]
pub enum Intent {
    SendEmail,
    ScheduleMeeting,
    NoAction,
}

/// The exact text that names an intent on the wire.
pub open spec fn intent_name(i: Intent) -> Seq<char> {
    match i {
        Intent::SendEmail => "SendEmail"@,
        Intent::ScheduleMeeting => "ScheduleMeeting"@,
        Intent::NoAction => "NoAction"@,
    }
}

/// The intent whose name is exactly `n`, if any.
pub open spec fn intent_named(n: Seq<char>) -> Option<Intent> {
    if n == "SendEmail"@ {
        Some(Intent::SendEmail)
    } else if n == "ScheduleMeeting"@ {
        Some(Intent::ScheduleMeeting)
    } else if n == "NoAction"@ {
        Some(Intent::NoAction)
    } else {
        None
    }
}

impl Intent {
    /// The name of this intent, as it is written in JSON.
    pub fn name(&self) -> (r: &'static str)
        ensures
            r@ == intent_name(*self),
    {
        match self {
            Intent::SendEmail => "SendEmail",
            Intent::ScheduleMeeting => "ScheduleMeeting",
            Intent::NoAction => "NoAction",
        }
    }
}

/// The view of an optional string.
pub open spec fn opt_view(o: Option<String>) -> Option<Seq<char>> {
    match o {
        Some(s) => Some(s@),
        None => None,
    }
}

/// The parameters of a classification, as sequences of characters.
pub ghost struct ParamsModel {
    pub recipient: Option<Seq<char>>,
    pub message: Option<Seq<char>>,
}

/// The parameters that go with an intent; either may be absent.
#[derive(Clone, Debug)]
pub struct Params {
    recipient: Option<String>,
    message: Option<String>,
}

impl View for Params {
    type V = ParamsModel;

    closed spec fn view(&self) -> ParamsModel {
        ParamsModel { recipient: opt_view(self.recipient), message: opt_view(self.message) }
    }
}

/// Borrow the text of an optional string.
fn opt_as_str(o: &Option<String>) -> (r: Option<&str>)
    ensures
        match r {
            Some(t) => opt_view(*o) == Some(t@),
            None => o is None,
        },
{
    match o {
        Some(s) => Some(s.as_str()),
        None => None,
    }
}

impl Params {
    pub fn new(recipient: Option<String>, message: Option<String>) -> (r: Self)
        ensures
            r@.recipient == opt_view(recipient),
            r@.message == opt_view(message),
    {
        Params { recipient, message }
    }

    pub fn with_values(recipient: String, message: String) -> (r: Self)
        ensures
            r@.recipient == Some(recipient@),
            r@.message == Some(message@),
    {
        Params { recipient: Some(recipient), message: Some(message) }
    }

    pub fn recipient(&self) -> (r: Option<&str>)
        ensures
            match r {
                Some(t) => self@.recipient == Some(t@),
                None => self@.recipient is None,
            },
    {
        opt_as_str(&self.recipient)
    }

    pub fn message(&self) -> (r: Option<&str>)
        ensures
            match r {
                Some(t) => self@.message == Some(t@),
                None => self@.message is None,
            },
    {
        opt_as_str(&self.message)
    }
}

/// An intent paired with its parameters, as sequences of characters.
pub ghost struct ClassificationModel {
    pub intent: Intent,
    pub params: ParamsModel,
}

/// One intent and its parameters: what a classification yields.
#[derive(Clone, Debug)]
pub struct ClassificationResult {
    pub intent: Intent,
    pub params: Params,
}

impl View for ClassificationResult {
    type V = ClassificationModel;

    open spec fn view(&self) -> ClassificationModel {
        ClassificationModel { intent: self.intent, params: self.params@ }
    }
}

impl ClassificationResult {
    pub fn new(intent: Intent, params: Params) -> (r: Self)
        ensures
            r@ == (ClassificationModel { intent, params: params@ }),
    {
        ClassificationResult { intent, params }
    }
}

} // verus!
