use model_speed::exchange::{Exchange, ExchangeEvent};
use model_speed::model::ModelConfig;
use model_speed::request::ApiKind;

fn model(api_type: &str) -> ModelConfig {
    ModelConfig {
        id: "m".to_string(),
        name: "M".to_string(),
        api_type: api_type.to_string(),
        base_url: "http://localhost:9".to_string(),
        api_key: "k".to_string(),
    }
}

fn finished(e: Exchange) -> (u64, u64, Option<String>) {
    match e {
        Exchange::Finished(m) => (m.ttft_ms, m.total_tokens, m.error),
        _ => panic!("the exchange has not finished"),
    }
}

#[test]
fn unknown_api_finishes_at_once() {
    let e = Exchange::begin(&model("palm"), "hi");
    assert_eq!(finished(e), (0, 0, Some("Unknown API type".to_string())));
}

#[test]
fn send_failure_is_reported() {
    let e = Exchange::begin(&model("openai"), "hi");
    match &e {
        Exchange::Send(req) => assert_eq!(req.url, "http://localhost:9/chat/completions"),
        _ => panic!("a known API sends first"),
    }
    let e = e.step(ExchangeEvent::SendFailed("connection refused".to_string()));
    assert_eq!(finished(e), (0, 0, Some("connection refused".to_string())));
}

#[test]
fn refusal_is_reported_with_status_and_body() {
    let e = Exchange::begin(&model("anthropic"), "hi");
    let e = e.step(ExchangeEvent::Responded(429, "429 Too Many Requests".to_string()));
    match &e {
        Exchange::ReadRefusal(t) => assert_eq!(t, "429 Too Many Requests"),
        _ => panic!("a refused request reads the body"),
    }
    let e = e.step(ExchangeEvent::RefusalBody("slow down".to_string()));
    assert_eq!(finished(e), (0, 0, Some("HTTP 429 Too Many Requests : slow down".to_string())));
}

#[test]
fn stream_runs_to_the_end_marker() {
    let e = Exchange::begin(&model("openai"), "hi");
    let e = e.step(ExchangeEvent::Responded(200, "200 OK".to_string()));
    match &e {
        Exchange::Streaming(st) => {
            assert_eq!(st.api, ApiKind::OpenAi);
            assert_eq!(st.total_tokens, 0);
        }
        _ => panic!("a successful response streams"),
    }
    let e = e.step(ExchangeEvent::Chunk(
        b"data: {\"choices\":[{\"delta\":{\"content\":\"abcdefgh\"}}]}\n".to_vec(),
        15,
    ));
    let e = e.step(ExchangeEvent::Chunk(b"data: [DONE]\n".to_vec(), 40));
    assert_eq!(finished(e), (15, 2, None));
}

#[test]
fn stream_end_and_failure_keep_what_was_read() {
    let e = Exchange::begin(&model("openai"), "hi")
        .step(ExchangeEvent::Responded(200, "200 OK".to_string()))
        .step(ExchangeEvent::Chunk(b"data: {\"choices\":[{\"delta\":{\"content\":\"abcd\"}}]}\n".to_vec(), 3));
    let ended = e.step(ExchangeEvent::StreamEnded);
    assert_eq!(finished(ended), (3, 1, None));
    let e = Exchange::begin(&model("openai"), "hi")
        .step(ExchangeEvent::Responded(204, "204 No Content".to_string()))
        .step(ExchangeEvent::StreamFailed("reset".to_string()));
    assert_eq!(finished(e), (0, 0, Some("reset".to_string())));
}
