use model_speed::json::{read_stream_event, StreamEvent};
use model_speed::request::ApiKind;
use model_speed::stream::{is_done_marker, payload_of_line, StreamState};

fn chars(s: &str) -> Vec<char> {
    s.chars().collect()
}

fn feed_all(api: ApiKind, chunks: &[&str], elapsed: u64) -> StreamState {
    let mut st = StreamState::new(api);
    for c in chunks {
        if st.done {
            break;
        }
        st.on_chunk(c.as_bytes(), elapsed);
    }
    st
}

const OPENAI: &str = "data: {\"choices\":[{\"delta\":{\"content\":\"Hello world!\"}}]}\n\n\
data: {\"choices\":[{\"delta\":{\"content\":\"abcd\"}}]}\n\n";

#[test]
fn openai_content_is_estimated_by_characters() {
    let st = feed_all(ApiKind::OpenAi, &[OPENAI], 12);
    assert_eq!(st.total_tokens, 4);
    assert_eq!(st.ttft_ms, 12);
    assert!(!st.done);
    assert!(st.buffer.is_empty());
}

#[test]
fn openai_usage_replaces_the_estimate_and_done_ends() {
    let text = format!(
        "{}data: {{\"choices\":[],\"usage\":{{\"completion_tokens\":42}}}}\n\ndata: [DONE]\n\ndata: {{\"choices\":[{{\"delta\":{{\"content\":\"more text here\"}}}}]}}\n",
        OPENAI
    );
    let st = feed_all(ApiKind::OpenAi, &[&text], 3);
    assert_eq!(st.total_tokens, 42);
    assert!(st.done);
}

#[test]
fn openai_done_with_crlf_lines() {
    let st = feed_all(ApiKind::OpenAi, &["data: {\"choices\":[{\"delta\":{\"content\":\"12345678\"}}]}\r\n\r\ndata: [DONE]\r\n"], 1);
    assert_eq!(st.total_tokens, 2);
    assert!(st.done);
}

#[test]
fn chunk_boundaries_do_not_matter() {
    let whole = feed_all(ApiKind::OpenAi, &[OPENAI], 5);
    for cut in 1..OPENAI.len() {
        let (a, b) = OPENAI.split_at(cut);
        let split = feed_all(ApiKind::OpenAi, &[a, b], 5);
        assert_eq!(split.total_tokens, whole.total_tokens);
        assert_eq!(split.ttft_ms, whole.ttft_ms);
        assert_eq!(split.buffer, whole.buffer);
        assert_eq!(split.done, whole.done);
    }
}

#[test]
fn partial_line_waits_for_its_end() {
    let mut st = StreamState::new(ApiKind::OpenAi);
    st.on_chunk(b"data: {\"choices\":[{\"delta\":{\"content\":\"abcdefgh\"}}]}", 4);
    assert_eq!(st.total_tokens, 0);
    assert_eq!(st.ttft_ms, 0);
    st.on_chunk(b"\n", 9);
    assert_eq!(st.total_tokens, 2);
    assert_eq!(st.ttft_ms, 9);
}

#[test]
fn first_token_time_is_kept() {
    let mut st = StreamState::new(ApiKind::OpenAi);
    st.on_chunk(b"data: {}\n", 7);
    assert_eq!(st.ttft_ms, 7);
    st.on_chunk(b"data: {}\n", 30);
    assert_eq!(st.ttft_ms, 7);
}

#[test]
fn first_token_at_zero_ms_is_measured_again() {
    let mut st = StreamState::new(ApiKind::OpenAi);
    st.on_chunk(b"data: {}\n", 0);
    assert_eq!(st.ttft_ms, 0);
    st.on_chunk(b"data: {}\n", 11);
    assert_eq!(st.ttft_ms, 11);
}

#[test]
fn non_data_lines_and_bad_json_count_nothing() {
    let st = feed_all(
        ApiKind::OpenAi,
        &[": keep-alive\nevent: ping\n\ndata:{\"x\":1}\ndata: not json\n"],
        6,
    );
    assert_eq!(st.total_tokens, 0);
    assert_eq!(st.ttft_ms, 6);
    assert!(!st.done);
}

#[test]
fn invalid_utf8_chunk_is_dropped() {
    let mut st = StreamState::new(ApiKind::OpenAi);
    st.on_chunk(b"data: {\"choices\":[{\"delta\":{\"content\":\"x", 1);
    let before = st.buffer.clone();
    st.on_chunk(&[0xc3], 2);
    assert_eq!(st.buffer, before);
    st.on_chunk("é\"}}]}\n".as_bytes(), 3);
    assert_eq!(st.total_tokens, 0);
    assert_eq!(st.ttft_ms, 3);
}

const ANTHROPIC: &str = "event: message_start\n\
data: {\"type\":\"message_start\",\"message\":{\"usage\":{\"input_tokens\":10}}}\n\n\
event: content_block_delta\n\
data: {\"type\":\"content_block_delta\",\"delta\":{\"type\":\"text_delta\",\"text\":\"Hello there!!\"}}\n\n\
event: content_block_delta\n\
data: {\"type\":\"content_block_delta\",\"delta\":{\"type\":\"text_delta\",\"text\":\"and a lot more text\"}}\n\n";

#[test]
fn anthropic_estimate_is_set_once() {
    let st = feed_all(ApiKind::Anthropic, &[ANTHROPIC], 2);
    assert_eq!(st.total_tokens, 3);
}

#[test]
fn anthropic_output_tokens_replace_the_estimate() {
    let text = format!(
        "{}event: message_delta\ndata: {{\"type\":\"message_delta\",\"delta\":{{\"stop_reason\":\"end_turn\"}},\"usage\":{{\"output_tokens\":25}}}}\n\nevent: message_stop\ndata: {{\"type\":\"message_stop\"}}\n\n",
        ANTHROPIC
    );
    let st = feed_all(ApiKind::Anthropic, &[&text], 2);
    assert_eq!(st.total_tokens, 25);
    assert!(!st.done);
}

#[test]
fn anthropic_ignores_openai_fields() {
    let st = feed_all(
        ApiKind::Anthropic,
        &["data: {\"choices\":[{\"delta\":{\"content\":\"abcdefgh\"}}],\"usage\":{\"completion_tokens\":9}}\n"],
        2,
    );
    assert_eq!(st.total_tokens, 0);
}

#[test]
fn openai_ignores_anthropic_fields() {
    let st = feed_all(
        ApiKind::OpenAi,
        &["data: {\"type\":\"message_delta\",\"usage\":{\"output_tokens\":25}}\n"],
        2,
    );
    assert_eq!(st.total_tokens, 0);
}

#[test]
fn stream_end_and_error_finish_reading() {
    let mut st = StreamState::new(ApiKind::OpenAi);
    st.on_chunk(OPENAI.as_bytes(), 1);
    st.on_stream_end();
    assert!(st.done);
    assert_eq!(st.total_tokens, 4);
    assert!(st.error.is_none());
    let mut st = StreamState::new(ApiKind::Anthropic);
    st.on_stream_error("connection reset".to_string());
    assert!(st.done);
    assert_eq!(st.error.as_deref(), Some("connection reset"));
}

#[test]
fn payloads_of_lines() {
    assert_eq!(payload_of_line(&chars("  data: abc  ")), Some(chars("abc")));
    assert_eq!(payload_of_line(&chars("data: ")), None);
    assert_eq!(payload_of_line(&chars("data:  x")), Some(chars(" x")));
    assert_eq!(payload_of_line(&chars("data:abc")), None);
    assert_eq!(payload_of_line(&chars("event: ping")), None);
    assert_eq!(payload_of_line(&chars("")), None);
    assert!(is_done_marker(&chars("[DONE]")));
    assert!(!is_done_marker(&chars("[DONE] ")));
    assert!(!is_done_marker(&chars("[done]")));
}

#[test]
fn apply_event_replaces_and_adds() {
    let mut st = StreamState::new(ApiKind::OpenAi);
    st.total_tokens = u64::MAX;
    st.apply_event(StreamEvent {
        event_type: None,
        choice_content: Some("abcdefgh".to_string()),
        completion_tokens: None,
        output_tokens: None,
        delta_text: None,
    });
    assert_eq!(st.total_tokens, 1);
    st.apply_event(StreamEvent {
        event_type: None,
        choice_content: None,
        completion_tokens: None,
        output_tokens: None,
        delta_text: None,
    });
    assert_eq!(st.total_tokens, 1);
}

#[test]
fn event_fields_are_read_at_their_paths() {
    let e = read_stream_event(
        "{\"type\":\"message_delta\",\"choices\":[{\"delta\":{\"content\":\"hi\"}}],\"usage\":{\"completion_tokens\":7,\"output_tokens\":9},\"delta\":{\"text\":\"yo\"}}",
    );
    assert_eq!(e.event_type.as_deref(), Some("message_delta"));
    assert_eq!(e.choice_content.as_deref(), Some("hi"));
    assert_eq!(e.completion_tokens, Some(7));
    assert_eq!(e.output_tokens, Some(9));
    assert_eq!(e.delta_text.as_deref(), Some("yo"));
}

#[test]
fn event_fields_need_the_right_types() {
    let e = read_stream_event(
        "{\"type\":3,\"choices\":{\"0\":{\"delta\":{\"content\":\"hi\"}}},\"usage\":{\"completion_tokens\":-1,\"output_tokens\":2.5}}",
    );
    assert_eq!(e.event_type, None);
    assert_eq!(e.choice_content, None);
    assert_eq!(e.completion_tokens, None);
    assert_eq!(e.output_tokens, None);
    assert_eq!(e.delta_text, None);
    let e = read_stream_event("not json");
    assert_eq!(e.event_type, None);
    assert_eq!(e.completion_tokens, None);
}
