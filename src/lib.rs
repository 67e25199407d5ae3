//! Locating, decoding and re-encoding the intent classification that a
//! language model embeds, as a fenced JSON block, in its free-form answer.

pub mod codec;
pub mod extract;
pub mod json;
pub mod laws;
pub mod message;
pub mod model;
pub mod text;

pub use codec::DecodeError;
pub use extract::{ExtractionError, OllamaResponseContent, PipelineError};
pub use laws::{lemma_bare_fallback, lemma_fenced_extraction, lemma_intent_name_round_trip};
pub use message::OllamaResponseMessage;
pub use model::{ClassificationResult, Intent, Params};
pub use text::{is_json_whitespace, trim_view};
