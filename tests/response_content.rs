use intent_extract::{ExtractionError, Intent, OllamaResponseContent, Params, PipelineError};

#[test]
fn test_extract_json_from_markdown() {
    let markdown_content = r#"```json
{
  "intent": "SendEmail",
  "params": {
    "recipient": "Turtle",
    "message": "informing her that I won't be able to attend the meeting"
  }
}
```"#;

    let result = OllamaResponseContent::extract_json_from_markdown(markdown_content).unwrap();
    assert!(result.contains("SendEmail"));
    assert!(result.contains("Turtle"));
}

#[test]
fn test_from_markdown_json() {
    let markdown_content = r#"```json
{
  "intent": "SendEmail",
  "params": {
    "recipient": "Turtle",
    "message": "informing her that I won't be able to attend the meeting"
  }
}
```"#;

    let result = OllamaResponseContent::from_markdown_json(markdown_content).unwrap();
    assert_eq!(result.intent, Intent::SendEmail);
    assert_eq!(result.params.recipient(), Some("Turtle"));
    assert_eq!(
        result.params.message(),
        Some("informing her that I won't be able to attend the meeting")
    );
}

#[test]
fn test_fallback_plain_json() {
    let plain_json = r#"{
  "intent": "ScheduleMeeting",
  "params": {
    "recipient": "John",
    "message": "Let's schedule a meeting"
  }
}"#;

    let result = OllamaResponseContent::from_markdown_json(plain_json).unwrap();
    assert_eq!(result.intent, Intent::ScheduleMeeting);
}

#[test]
fn test_invalid_content() {
    let invalid_content = "This is not JSON content";
    let result = OllamaResponseContent::from_markdown_json(invalid_content);
    assert!(result.is_err());
}

fn extract(raw: &str) -> Result<String, ExtractionError> {
    OllamaResponseContent::extract_json_from_markdown(raw)
}

fn not_found(raw: &str) {
    match extract(raw) {
        Err(ExtractionError::NoJsonFound(text)) => assert_eq!(text, raw),
        Ok(j) => panic!("located {:?} in {:?}", j, raw),
    }
}

#[test]
fn fenced_block_inside_prose() {
    let obj = r#"{"intent":"NoAction","params":{}}"#;
    let raw = format!("noise ```json {} ``` more noise", obj);
    assert_eq!(extract(&raw).unwrap(), obj);
}

#[test]
fn fenced_block_content_is_trimmed() {
    assert_eq!(extract("```json\n\t  {\"a\":1}  \r\n```").unwrap(), "{\"a\":1}");
}

#[test]
fn bare_object_is_returned_unchanged() {
    let obj = r#"{"intent":"SendEmail","params":{"recipient":null}}"#;
    assert_eq!(extract(obj).unwrap(), obj);
}

#[test]
fn bare_object_is_trimmed() {
    assert_eq!(extract("  \n{\"a\":1}\n  ").unwrap(), "{\"a\":1}");
}

#[test]
fn prose_has_no_json() {
    not_found("just some prose");
}

#[test]
fn unclosed_fence_has_no_json() {
    not_found("```json\n{\"a\":1}\n");
    not_found("```json { \"intent\": \"SendEmail\" }");
}

#[test]
fn empty_and_blank_answers_have_no_json() {
    not_found("");
    not_found("   \n\t");
}

#[test]
fn single_brace_is_not_an_object() {
    not_found("{");
    not_found("}");
}

#[test]
fn only_first_fenced_block_counts() {
    let raw = "```json {\"n\":1} ``` and ```json {\"n\":2} ```";
    assert_eq!(extract(raw).unwrap(), "{\"n\":1}");
}

#[test]
fn blank_fenced_block_yields_empty_text() {
    assert_eq!(extract("```json   \n ```").unwrap(), "");
    let result = OllamaResponseContent::from_markdown_json("```json   \n ```");
    assert!(matches!(
        result,
        Err(PipelineError::Decode(intent_extract::DecodeError::Syntax))
    ));
}

#[test]
fn uppercase_or_untagged_fence_is_not_recognised() {
    not_found("```JSON\n{\"a\":1}\n```");
    not_found("```\n{\"a\":1}\n```");
}

#[test]
fn unclosed_fence_falls_back_to_bare_object() {
    assert_eq!(extract("{\"a\":\"```json\"}").unwrap(), "{\"a\":\"```json\"}");
}

#[test]
fn unicode_whitespace_is_trimmed() {
    assert_eq!(extract("\u{3000}{\"a\":1}\u{a0}").unwrap(), "{\"a\":1}");
    assert_eq!(intent_extract::trim_view("\u{2028} x \u{85}"), "x");
    assert!(intent_extract::is_json_whitespace('\u{205f}'));
    assert!(!intent_extract::is_json_whitespace('x'));
}

#[test]
fn content_to_json_string_is_canonical() {
    let content = OllamaResponseContent { intent: Intent::ScheduleMeeting, params: Params::new(None, None) };
    assert_eq!(
        content.to_json_string().unwrap(),
        r#"{"intent":"ScheduleMeeting","params":{"recipient":null,"message":null}}"#
    );
}
