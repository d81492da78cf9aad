//! Decoding event frames into typed records.

use llm_chat::frame::extract_frame;
use llm_chat::qianfan::{
    QianfanChatResponse, QianfanChatResponseParseError, QianfanChatTokenUsage,
};

const RECORD_JSON: &str = "{\"id\":\"session:1\",\"object\":\"text_completion\",\"created\":1625247049,\"sentence_id\":1,\"is_end\":false,\"is_truncated\":false,\"result\":\"Rust is a multi-paradigm programming language designed for performance and safety, especially safe concurrency.\",\"need_clear_history\":false,\"usage\":{\"prompt_tokens\":10,\"completion_tokens\":100,\"total_tokens\":110}}";

fn expected_record() -> QianfanChatResponse {
    QianfanChatResponse {
        id: "session:1".to_string(),
        object: "text_completion".to_string(),
        created: 1625247049,
        sentence_id: Some(1),
        is_end: Some(false),
        is_truncated: false,
        result: "Rust is a multi-paradigm programming language designed for performance and safety, especially safe concurrency.".to_string(),
        need_clear_history: false,
        usage: QianfanChatTokenUsage {
            prompt_tokens: 10,
            completion_tokens: 100,
            total_tokens: 110,
        },
    }
}

#[test]
fn test_parse_to_qianfan_chat_response() {
    // The expected response
    let expected_response = expected_record();

    // The bytes to parse, with the `data: ` marker still present
    let content = format!("data: {}", RECORD_JSON);

    // Parse to QianfanChatResponse
    let response = QianfanChatResponse::try_from(&content).unwrap();

    // Check if the response is equal to the expected response
    assert_eq!(response, expected_response);

    // This response is an error because it is missing the 'data: ' prefix
    let response = QianfanChatResponse::try_from(&format!("result: {}", RECORD_JSON));
    assert!(response.is_err());
}

#[test]
fn round_trip_extract_then_decode() {
    // Extraction peels the framing off; decoding the payload recovers every
    // literal field value of the input JSON.
    let content = format!("data: {}\n\n", RECORD_JSON);

    let extraction = extract_frame(&content);
    let payload = extraction.frame.expect("one complete frame");
    assert_eq!(extraction.remaining_content, None);

    let record = QianfanChatResponse::try_from(&payload).unwrap();
    assert_eq!(record, expected_record());
}

#[test]
fn bare_record_without_marker_decodes() {
    let record = QianfanChatResponse::try_from(RECORD_JSON).unwrap();
    assert_eq!(record, expected_record());
}

#[test]
fn wrong_marker_is_missing_prefix() {
    let content = format!("result: {}", RECORD_JSON);

    let response = QianfanChatResponse::try_from(&content);

    assert_eq!(
        response,
        Err(QianfanChatResponseParseError::MissingDataPrefix)
    );
}

#[test]
fn marked_garbage_is_a_parse_error() {
    let response = QianfanChatResponse::try_from("data: not json at all");

    assert!(matches!(
        response,
        Err(QianfanChatResponseParseError::JsonParseError(_))
    ));
}

#[test]
fn marked_schema_mismatch_is_a_parse_error() {
    // Valid JSON, but `created` is a string instead of an integer.
    let response = QianfanChatResponse::try_from("data: {\"id\":\"a\",\"object\":\"b\",\"created\":\"nope\",\"is_truncated\":false,\"result\":\"r\",\"need_clear_history\":false,\"usage\":{\"prompt_tokens\":1,\"completion_tokens\":2,\"total_tokens\":3}}");

    assert!(matches!(
        response,
        Err(QianfanChatResponseParseError::JsonParseError(_))
    ));
}

#[test]
fn optional_fields_may_be_absent_or_null() {
    let content = "{\"id\":\"a\",\"object\":\"b\",\"created\":7,\"sentence_id\":null,\"is_truncated\":true,\"result\":\"r\",\"need_clear_history\":true,\"usage\":{\"prompt_tokens\":1,\"completion_tokens\":2,\"total_tokens\":3}}";

    let record = QianfanChatResponse::try_from(content).unwrap();

    assert_eq!(record.sentence_id, None);
    assert_eq!(record.is_end, None);
    assert_eq!(record.created, 7);
    assert!(record.is_truncated);
    assert!(record.need_clear_history);
}

#[test]
fn out_of_range_counter_is_rejected() {
    // `created` does not fit in a u32.
    let content = "{\"id\":\"a\",\"object\":\"b\",\"created\":4294967296,\"is_truncated\":false,\"result\":\"r\",\"need_clear_history\":false,\"usage\":{\"prompt_tokens\":1,\"completion_tokens\":2,\"total_tokens\":3}}";

    assert!(QianfanChatResponse::try_from(content).is_err());
}

#[test]
fn missing_required_field_is_rejected() {
    // No `result` field.
    let content = "{\"id\":\"a\",\"object\":\"b\",\"created\":7,\"is_truncated\":false,\"need_clear_history\":false,\"usage\":{\"prompt_tokens\":1,\"completion_tokens\":2,\"total_tokens\":3}}";

    assert!(QianfanChatResponse::try_from(content).is_err());
}
