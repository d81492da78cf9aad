//! Frame extraction on concrete buffers.

use llm_chat::frame::extract_frame;

const RECORD_JSON: &str = "{\"id\":\"session:1\",\"object\":\"text_completion\",\"created\":1625247049,\"sentence_id\":1,\"is_end\":false,\"is_truncated\":false,\"result\":\"Rust is a multi-paradigm programming language designed for performance and safety, especially safe concurrency.\",\"need_clear_history\":false,\"usage\":{\"prompt_tokens\":10,\"completion_tokens\":100,\"total_tokens\":110}}";

#[test]
fn test_stream_response_re() {
    // One complete frame followed by the start of the next one.
    let content = format!("data: {}\n\ndata: ", RECORD_JSON);

    let extraction = extract_frame(&content);

    assert_eq!(extraction.frame, Some(RECORD_JSON.to_string()));
    assert_eq!(extraction.remaining_content, Some("data: ".to_string()));
}

#[test]
fn whole_frame_no_leading_garbage() {
    // A well-formed `data: <payload>\n\n` buffer with nothing around it:
    // exactly the payload comes back, and no remainder.
    let content = "data: {\"x\":1}\n\n";

    let extraction = extract_frame(content);

    assert_eq!(extraction.frame, Some("{\"x\":1}".to_string()));
    assert_eq!(extraction.remaining_content, None);
}

#[test]
fn complete_frame_then_partial_frame() {
    let content = "data: {\"x\":1}\n\ndata: {\"y\":";

    let extraction = extract_frame(content);

    assert_eq!(extraction.frame, Some("{\"x\":1}".to_string()));
    assert_eq!(
        extraction.remaining_content,
        Some("data: {\"y\":".to_string())
    );
}

#[test]
fn no_terminator_carries_everything_over() {
    let content = "data: {\"x\":1}";

    let extraction = extract_frame(content);

    assert_eq!(extraction.frame, None);
    assert_eq!(extraction.remaining_content, Some(content.to_string()));
}

#[test]
fn empty_buffer_yields_nothing() {
    let extraction = extract_frame("");

    assert_eq!(extraction.frame, None);
    assert_eq!(extraction.remaining_content, None);
}

#[test]
fn empty_payload_is_not_a_frame() {
    // The payload needs at least one character: `data: \n\n` does not match.
    let content = "data: \n\n";

    let extraction = extract_frame(content);

    assert_eq!(extraction.frame, None);
    assert_eq!(extraction.remaining_content, Some(content.to_string()));
}

#[test]
fn leading_garbage_is_skipped() {
    let content = "noise\ndata: {\"x\":1}\n\ntail";

    let extraction = extract_frame(content);

    assert_eq!(extraction.frame, Some("{\"x\":1}".to_string()));
    assert_eq!(extraction.remaining_content, Some("tail".to_string()));
}

#[test]
fn extraction_is_idempotent() {
    // Two passes over the same unmodified buffer agree exactly.
    let content = "data: {\"x\":1}\n\ndata: partial";

    let first = extract_frame(content);
    let second = extract_frame(content);

    assert_eq!(first, second);
}
