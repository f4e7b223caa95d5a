use model_speed::model::ModelConfig;
use model_speed::request::{
    frame_body,
    api_kind, http_failure_message, plan_request, status_is_success, trim_trailing_slashes, ApiKind,
};

fn model(api_type: &str, base_url: &str) -> ModelConfig {
    ModelConfig {
        id: "tiny-model-v2".to_string(),
        name: "Mini".to_string(),
        api_type: api_type.to_string(),
        base_url: base_url.to_string(),
        api_key: "sk-SECRET".to_string(),
    }
}

#[test]
fn api_kind_knows_two_types() {
    assert_eq!(api_kind("openai"), Some(ApiKind::OpenAi));
    assert_eq!(api_kind("anthropic"), Some(ApiKind::Anthropic));
    assert_eq!(api_kind("OpenAI"), None);
    assert_eq!(api_kind(""), None);
}

#[test]
fn trailing_slashes_are_trimmed() {
    assert_eq!(trim_trailing_slashes("https://api.x.com/v1///"), "https://api.x.com/v1");
    assert_eq!(trim_trailing_slashes("https://api.x.com/v1"), "https://api.x.com/v1");
    assert_eq!(trim_trailing_slashes("///"), "");
}

#[test]
fn openai_request_is_framed() {
    let req = plan_request(&model("openai", "https://api.openai.com/v1/"), "Count to 3").unwrap();
    assert_eq!(req.api, ApiKind::OpenAi);
    assert_eq!(req.url, "https://api.openai.com/v1/chat/completions");
    assert_eq!(
        req.headers,
        vec![
            ("Authorization".to_string(), "Bearer sk-SECRET".to_string()),
            ("Content-Type".to_string(), "application/json".to_string()),
        ]
    );
    assert_eq!(
        req.body,
        "{\"max_tokens\":1000,\"messages\":[{\"content\":\"Count to 3\",\"role\":\"user\"}],\"model\":\"tiny-model-v2\",\"stream\":true,\"stream_options\":{\"include_usage\":true}}"
    );
    let body: serde_json::Value = serde_json::from_str(&req.body).unwrap();
    assert_eq!(body["stream_options"]["include_usage"], serde_json::Value::Bool(true));
}

#[test]
fn anthropic_request_is_framed() {
    let req = plan_request(&model("anthropic", "https://api.anthropic.com"), "Hi").unwrap();
    assert_eq!(req.api, ApiKind::Anthropic);
    assert_eq!(req.url, "https://api.anthropic.com/v1/messages");
    assert_eq!(
        req.headers,
        vec![
            ("x-api-key".to_string(), "sk-SECRET".to_string()),
            ("anthropic-version".to_string(), "2023-06-01".to_string()),
            ("Content-Type".to_string(), "application/json".to_string()),
        ]
    );
    assert_eq!(
        req.body,
        "{\"max_tokens\":1024,\"messages\":[{\"content\":\"Hi\",\"role\":\"user\"}],\"model\":\"tiny-model-v2\",\"stream\":true}"
    );
}

#[test]
fn request_body_escapes_text() {
    let req = plan_request(&model("openai", "http://h"), "say \"hi\"\n\\").unwrap();
    assert!(req.body.contains("\"content\":\"say \\\"hi\\\"\\n\\\\\""));
    let body: serde_json::Value = serde_json::from_str(&req.body).unwrap();
    assert_eq!(body["messages"][0]["content"], "say \"hi\"\n\\");
}

#[test]
fn unknown_api_type_is_refused() {
    match plan_request(&model("gemini", "http://h"), "x") {
        Err(e) => assert_eq!(e, "Unknown API type"),
        Ok(_) => panic!("an unknown API type was accepted"),
    }
}

#[test]
fn success_statuses_are_2xx() {
    assert!(status_is_success(200));
    assert!(status_is_success(299));
    assert!(!status_is_success(199));
    assert!(!status_is_success(300));
    assert!(!status_is_success(429));
}

#[test]
fn http_failure_message_names_status_and_body() {
    assert_eq!(
        http_failure_message("401 Unauthorized", "{\"error\":\"bad key\"}"),
        "HTTP 401 Unauthorized : {\"error\":\"bad key\"}"
    );
}

#[test]
fn bodies_are_framed_around_literals() {

    assert_eq!(
        frame_body(ApiKind::Anthropic, "\"m\"", "\"p\""),
        "{\"max_tokens\":1024,\"messages\":[{\"content\":\"p\",\"role\":\"user\"}],\"model\":\"m\",\"stream\":true}"
    );
    assert_eq!(
        frame_body(ApiKind::OpenAi, "1", "2"),
        "{\"max_tokens\":1000,\"messages\":[{\"content\":2,\"role\":\"user\"}],\"model\":1,\"stream\":true,\"stream_options\":{\"include_usage\":true}}"
    );
}

#[test]
fn control_characters_are_escaped_as_serde_json_does() {
    let req = plan_request(&model("anthropic", "http://h"), "a\u{1}\u{1f}\t\u{8}\u{c}\r\u{7f}\u{e9}/").unwrap();
    assert!(req.body.contains("\"content\":\"a\\u0001\\u001f\\t\\b\\f\\r\u{7f}\u{e9}/\""));
    let expected = serde_json::to_string("a\u{1}\u{1f}\t\u{8}\u{c}\r\u{7f}\u{e9}/").unwrap();
    assert!(req.body.contains(&expected));
}
