//! The streaming adapter: carry-over across chunks, batched frames, and
//! terminal events.

use llm_chat::qianfan::QianfanChatResponse;
use llm_chat::stream::{
    extract_first_response, QianfanChatResponseStream, StreamEvent, StreamStep,
};

#[test]
fn first_pull_of_a_streamed_response() {
    // One complete frame and the beginning of the next, as one chunk: the
    // first pull yields the decoded record, and the partial marker becomes
    // the carry-over.
    let chunk = "data: {\"id\":\"session:1\",\"object\":\"text_completion\",\"created\":1625247049,\"sentence_id\":1,\"is_end\":false,\"is_truncated\":false,\"result\":\"hi\",\"need_clear_history\":false,\"usage\":{\"prompt_tokens\":10,\"completion_tokens\":100,\"total_tokens\":110}}\n\ndata: ";

    let mut stream = QianfanChatResponseStream::new();
    let outputs = stream.process_chunk(chunk);

    assert_eq!(outputs.len(), 1);
    let record = outputs[0].as_ref().unwrap();
    assert_eq!(record.id, "session:1");
    assert_eq!(record.result, "hi");
    assert_eq!(record.usage.total_tokens, 110);
    assert_eq!(stream.remaining_content, Some("data: ".to_string()));
}

#[test]
fn frame_split_across_chunks() {
    let mut stream = QianfanChatResponseStream::new();

    let first = stream.process_chunk("data: {\"id\":\"a\",\"object\":\"b\",\"created\":1,");
    assert!(first.is_empty());
    assert!(stream.remaining_content.is_some());

    let second = stream.process_chunk("\"is_truncated\":false,\"result\":\"r\",\"need_clear_history\":false,\"usage\":{\"prompt_tokens\":1,\"completion_tokens\":2,\"total_tokens\":3}}\n\n");
    assert_eq!(second.len(), 1);
    assert_eq!(second[0].as_ref().unwrap().id, "a");
    assert_eq!(stream.remaining_content, None);
}

#[test]
fn batched_frames_are_all_surfaced() {
    // Two complete frames in one read: both records come out, in order.
    let chunk = "data: {\"id\":\"one\",\"object\":\"b\",\"created\":1,\"is_truncated\":false,\"result\":\"x\",\"need_clear_history\":false,\"usage\":{\"prompt_tokens\":1,\"completion_tokens\":2,\"total_tokens\":3}}\n\ndata: {\"id\":\"two\",\"object\":\"b\",\"created\":2,\"is_end\":true,\"is_truncated\":false,\"result\":\"y\",\"need_clear_history\":false,\"usage\":{\"prompt_tokens\":4,\"completion_tokens\":5,\"total_tokens\":9}}\n\n";

    let mut stream = QianfanChatResponseStream::new();
    let outputs = stream.process_chunk(chunk);

    assert_eq!(outputs.len(), 2);
    assert_eq!(outputs[0].as_ref().unwrap().id, "one");
    assert_eq!(outputs[1].as_ref().unwrap().id, "two");
    assert_eq!(outputs[1].as_ref().unwrap().is_end, Some(true));
    assert_eq!(stream.remaining_content, None);
}

#[test]
fn undecodable_frame_is_an_error_not_a_stop() {
    // A malformed frame surfaces as an error; the frame after it still comes.
    let chunk = "data: not json\n\ndata: {\"id\":\"ok\",\"object\":\"b\",\"created\":1,\"is_truncated\":false,\"result\":\"x\",\"need_clear_history\":false,\"usage\":{\"prompt_tokens\":1,\"completion_tokens\":2,\"total_tokens\":3}}\n\n";

    let mut stream = QianfanChatResponseStream::new();
    let outputs = stream.process_chunk(chunk);

    assert_eq!(outputs.len(), 2);
    assert!(outputs[0].is_err());
    assert_eq!(outputs[1].as_ref().unwrap().id, "ok");
}

#[test]
fn terminal_events_finish_without_touching_state() {
    let mut stream = QianfanChatResponseStream::new();
    let pending = stream.process_chunk("data: partial");
    assert!(pending.is_empty());
    let carry_before = stream.remaining_content.clone();

    let step = stream.handle_event(StreamEvent::TransportError);
    assert!(matches!(step, StreamStep::Finished));
    assert_eq!(stream.remaining_content, carry_before);

    let step = stream.handle_event(StreamEvent::Exhausted);
    assert!(matches!(step, StreamStep::Finished));
    assert_eq!(stream.remaining_content, carry_before);
}

#[test]
fn chunk_event_drains_like_process_chunk() {
    let mut stream = QianfanChatResponseStream::new();

    let step = stream.handle_event(StreamEvent::Chunk(
        "data: {\"id\":\"ev\",\"object\":\"b\",\"created\":1,\"is_truncated\":false,\"result\":\"x\",\"need_clear_history\":false,\"usage\":{\"prompt_tokens\":1,\"completion_tokens\":2,\"total_tokens\":3}}\n\n".to_string(),
    ));

    match step {
        StreamStep::Records(outputs) => {
            assert_eq!(outputs.len(), 1);
            assert_eq!(outputs[0].as_ref().unwrap().id, "ev");
        }
        StreamStep::Finished => panic!("a chunk must not finish the sequence"),
    }
}

#[test]
fn fused_extraction_decodes_first_frame() {
    let content = "data: {\"id\":\"a\",\"object\":\"b\",\"created\":1,\"is_truncated\":false,\"result\":\"x\",\"need_clear_history\":false,\"usage\":{\"prompt_tokens\":1,\"completion_tokens\":2,\"total_tokens\":3}}\n\ndata: ";

    let extracted = extract_first_response(content).unwrap();

    let record = extracted.response.expect("a decoded record");
    assert_eq!(record.id, "a");
    assert_eq!(extracted.remaining_content, Some("data: ".to_string()));
}

#[test]
fn fused_extraction_without_a_frame_carries_over() {
    let extracted = extract_first_response("data: partial").unwrap();

    assert_eq!(extracted.response, None);
    assert_eq!(
        extracted.remaining_content,
        Some("data: partial".to_string())
    );
}

#[test]
fn fused_extraction_fails_on_undecodable_payload() {
    assert!(extract_first_response("data: not json\n\n").is_err());
}

#[test]
fn carry_over_never_holds_a_complete_frame() {
    // Whatever arrives, the carry-over left behind never contains a full
    // frame: feeding an empty chunk afterwards can never produce a record.
    let mut stream = QianfanChatResponseStream::new();
    stream.process_chunk("data: {\"id\":\"a\",\"object\":\"b\",\"created\":1,\"is_truncated\":false,\"result\":\"x\",\"need_clear_history\":false,\"usage\":{\"prompt_tokens\":1,\"completion_tokens\":2,\"total_tokens\":3}}\n\ndata: tail");

    let outputs = stream.process_chunk("");
    assert!(outputs.is_empty());
    assert_eq!(stream.remaining_content, Some("data: tail".to_string()));
}

#[test]
fn decoded_record_is_a_value_without_back_references() {
    // A record handed out survives the adapter.
    let record: QianfanChatResponse;
    {
        let mut stream = QianfanChatResponseStream::new();
        let mut outputs = stream.process_chunk("data: {\"id\":\"a\",\"object\":\"b\",\"created\":1,\"is_truncated\":false,\"result\":\"x\",\"need_clear_history\":false,\"usage\":{\"prompt_tokens\":1,\"completion_tokens\":2,\"total_tokens\":3}}\n\n");
        record = outputs.remove(0).unwrap();
    }
    assert_eq!(record.id, "a");
}
