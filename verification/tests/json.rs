use ctx_hub::error::CtxError;
use ctx_hub::storage::json::{tags_from_json, tags_to_json};

#[test]
fn tags_are_written_as_a_json_array() -> Result<(), CtxError> {
    let tags = vec!["payment".to_string(), "run\"book".to_string()];
    let text = tags_to_json(&tags)?;
    assert_eq!(text, "[\"payment\",\"run\\\"book\"]");
    assert_eq!(tags_from_json(&text)?, tags);
    Ok(())
}

#[test]
fn empty_tags_round_trip() -> Result<(), CtxError> {
    let text = tags_to_json(&vec![])?;
    assert_eq!(text, "[]");
    assert!(tags_from_json(&text)?.is_empty());
    Ok(())
}

#[test]
fn cjk_tags_round_trip() -> Result<(), CtxError> {
    let tags = vec!["支付".to_string(), "a\\b\n".to_string()];
    assert_eq!(tags_from_json(&tags_to_json(&tags)?)?, tags);
    Ok(())
}

#[test]
fn malformed_tag_json_is_a_json_error() {
    assert!(matches!(tags_from_json("not json"), Err(CtxError::Json(_))));
    assert!(matches!(tags_from_json("[1, 2]"), Err(CtxError::Json(_))));
}

#[test]
fn control_characters_are_escaped() -> Result<(), CtxError> {
    let tags = vec!["a\u{1}b\tc\u{7f}/".to_string()];
    assert_eq!(tags_to_json(&tags)?, "[\"a\\u0001b\\tc\u{7f}/\"]");
    assert_eq!(tags_to_json(&vec!["\u{1f}".to_string(), "x".to_string()])?, "[\"\\u001f\",\"x\"]");
    Ok(())
}
