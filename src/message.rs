//! A model's answer as received, and the two ways of reading it.

use vstd::prelude::*;
use vstd::string::*;

use crate::extract::{display_text, pipeline_outcome, OllamaResponseContent, PipelineError};

verus! {

/// The role and text of an answer, as sequences of characters.
pub ghost struct MessageModel {
    pub role: Seq<char>,
    pub content: Seq<char>,
}

/// An answer from the model: who spoke, and the text as it came.
#[derive(Clone, Debug)]
pub struct OllamaResponseMessage {
    pub role: String,
    raw_content: String,
}

impl View for OllamaResponseMessage {
    type V = MessageModel;

    closed spec fn view(&self) -> MessageModel {
        MessageModel { role: self.role@, content: self.raw_content@ }
    }
}

impl OllamaResponseMessage {
    pub fn new(role: String, raw_content: String) -> (r: Self)
        ensures
            r@ == (MessageModel { role: role@, content: raw_content@ }),
    {
        OllamaResponseMessage { role, raw_content }
    }

    /// The text of the answer, as it came.
    pub fn raw_content(&self) -> (r: &str)
        ensures
            r@ == self@.content,
    {
        self.raw_content.as_str()
    }

    /// The classification in the answer, or the stage that failed.
    pub fn parsed_content(&self) -> (r: Result<OllamaResponseContent, PipelineError>)
        ensures
            pipeline_outcome(self@.content, r),
    {
        OllamaResponseContent::from_markdown_json(self.raw_content.as_str())
    }

    /// The canonical JSON text of the classification in the answer, or the
    /// answer itself, unchanged, where it holds none.
    pub fn content(&self) -> (r: String)
        ensures
            r@ == display_text(self@.content),
    {
        match self.parsed_content() {
            Ok(parsed) => match parsed.to_json_string() {
                Ok(t) => t,
                Err(_) => self.raw_content.clone(),
            },
            Err(_) => self.raw_content.clone(),
        }
    }
}

} // verus!
