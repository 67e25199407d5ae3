//! Locating the JSON text in a model's answer, and the pipeline from the
//! answer to a decoded classification.

use vstd::prelude::*;
use vstd::string::*;

use crate::codec::{classification_json, decode_classification, encode_classification, DecodeError};
use crate::model::{ClassificationModel, ClassificationResult, Intent, Params};
use crate::text::{find, find_pattern, trim, trim_view};

verus! {

/// The marker that opens a fenced JSON block.
pub open spec fn fence_open() -> Seq<char> {
    "```json"@
}

/// The marker that closes a fenced block.
pub open spec fn fence_close() -> Seq<char> {
    "```"@
}

/// The trimmed content of the first fenced JSON block of `s`: from just past
/// the first opening marker to the first closing marker after it. `None`
/// where there is no opening marker, or no closing one after it.
pub open spec fn fenced_json(s: Seq<char>) -> Option<Seq<char>> {
    match find(s, fence_open()) {
        None => None,
        Some(i) => {
            let rest = s.subrange(i + fence_open().len(), s.len() as int);
            match find(rest, fence_close()) {
                Some(j) => Some(trim(rest.subrange(0, j))),
                None => None,
            }
        },
    }
}

/// `t` starts with `{` and ends with `}`.
pub open spec fn is_braced(t: Seq<char>) -> bool {
    t.len() > 0 && t[0] == '{' && t.last() == '}'
}

/// The JSON text that `s` holds: a fenced block first; failing that, the
/// whole of `s`, trimmed, where it is braced.
pub open spec fn extract_json(s: Seq<char>) -> Option<Seq<char>> {
    match fenced_json(s) {
        Some(t) => Some(t),
        None => if is_braced(trim(s)) {
            Some(trim(s))
        } else {
            None
        },
    }
}

/// No JSON text could be located.
#[derive(Clone, Debug)]
pub enum ExtractionError {
    /// Neither a fenced block nor a bare object; holds the text searched.
    NoJsonFound(String),
}

/// Which stage of the pipeline failed.
#[derive(Clone, Debug)]
pub enum PipelineError {
    Extraction(ExtractionError),
    Decode(DecodeError),
}

/// What the pipeline gives for the answer `raw`: the classification of the
/// JSON text located in it, or the failure of the stage that failed.
pub open spec fn pipeline_outcome(raw: Seq<char>, r: Result<OllamaResponseContent, PipelineError>) -> bool {
    match extract_json(raw) {
        None => r matches Err(PipelineError::Extraction(ExtractionError::NoJsonFound(t))) && t@
            == raw,
        Some(j) => match decode_classification(j) {
            Ok(c) => r matches Ok(x) && x@ == c,
            Err(e) => r matches Err(PipelineError::Decode(e2)) && e2 == e,
        },
    }
}

/// The text to show for the answer `raw`: the canonical JSON text of its
/// classification, or `raw` itself where there is none.
pub open spec fn display_text(raw: Seq<char>) -> Seq<char> {
    match extract_json(raw) {
        Some(j) => match decode_classification(j) {
            Ok(c) => classification_json(c),
            Err(_) => raw,
        },
        None => raw,
    }
}

/// A classification decoded from a model's answer.
#[derive(Clone, Debug)]
pub struct OllamaResponseContent {
    pub intent: Intent,
    pub params: Params,
}

impl View for OllamaResponseContent {
    type V = ClassificationModel;

    open spec fn view(&self) -> ClassificationModel {
        ClassificationModel { intent: self.intent, params: self.params@ }
    }
}

/// The bounds, in `s`, of the content of its first fenced JSON block.
fn fenced_bounds(s: &str) -> (r: Option<(usize, usize)>)
    ensures
        match r {
            Some((a, b)) => a <= b <= s@.len() && fenced_json(s@) == Some(
                trim(s@.subrange(a as int, b as int)),
            ),
            None => fenced_json(s@) is None,
        },
{
    let open = "```json";
    let start = match find_pattern(s, open) {
        Some(i) => i,
        None => return None,
    };
    proof {
        reveal_strlit("```json");
    }
    let n = s.unicode_len();
    let after = start + 7;
    let rest = s.substring_char(after, n);
    match find_pattern(rest, "```") {
        Some(j) => {
            assert(rest@.subrange(0, j as int) =~= s@.subrange(after as int, after + j));
            Some((after, after + j))
        },
        None => None,
    }
}

impl OllamaResponseContent {
    /// Locate the JSON text in an answer: the trimmed content of its first
    /// fenced JSON block, or else the whole answer, trimmed, where it is a
    /// bare object.
    pub fn extract_json_from_markdown(content: &str) -> (r: Result<String, ExtractionError>)
        ensures
            match extract_json(content@) {
                Some(t) => r matches Ok(j) && j@ == t,
                None => r matches Err(ExtractionError::NoJsonFound(raw)) && raw@ == content@,
            },
    {
        if let Some((a, b)) = fenced_bounds(content) {
            let block = content.substring_char(a, b);
            return Ok(String::from_str(trim_view(block)));
        }
        let t = trim_view(content);
        let n = t.unicode_len();
        if n > 0 && t.get_char(0) == '{' && t.get_char(n - 1) == '}' {
            Ok(String::from_str(t))
        } else {
            Err(ExtractionError::NoJsonFound(String::from_str(content)))
        }
    }

    /// Locate the JSON text in an answer and decode it.
    pub fn from_markdown_json(content: &str) -> (r: Result<OllamaResponseContent, PipelineError>)
        ensures
            pipeline_outcome(content@, r),
    {
        let json = match OllamaResponseContent::extract_json_from_markdown(content) {
            Ok(j) => j,
            Err(e) => return Err(PipelineError::Extraction(e)),
        };
        match ClassificationResult::from_json_str(json.as_str()) {
            Ok(c) => Ok(OllamaResponseContent { intent: c.intent, params: c.params }),
            Err(e) => Err(PipelineError::Decode(e)),
        }
    }

    /// The canonical JSON text of this classification, on one line.
    pub fn to_json_string(&self) -> (r: Result<String, serde_json::Error>)
        ensures
            r matches Ok(t) && t@ == classification_json(self@),
    {
        Ok(encode_classification(self.intent, &self.params))
    }
}

} // verus!
