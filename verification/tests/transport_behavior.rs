//! The transport core: configuration checks, failure classification, the
//! retry policy, the request body, and reply extraction.

use deepseek_agents::transport::{
    build_chat_request, classify_http_status, classify_transport_error, extract_reply,
    is_official_deepseek_host, map_model_string_to_ext, next_send_action, reasoner_config,
    ChatMessage, Config, ModelKind, RetryDecision,
};
use deepseek_agents::DeepSeekError;

fn cfg() -> Config {
    Config {
        api_key: "k".to_string(),
        base_url: "https://api.deepseek.com".to_string(),
        model: "deepseek-chat".to_string(),
        timeout: 30,
        max_tokens: 1024,
        temperature: "0.7".to_string(),
    }
}

#[test]
fn config_accepts_and_rejects() {
    assert!(cfg().validate().is_ok());
    let mut c = cfg();
    c.api_key = String::new();
    assert!(matches!(c.validate(), Err(DeepSeekError::ConfigError { .. })));
    let mut c = cfg();
    c.base_url = "ftp://elsewhere".to_string();
    assert!(matches!(c.validate(), Err(DeepSeekError::ConfigError { .. })));
    let mut c = cfg();
    c.temperature = "warm".to_string();
    assert!(matches!(c.validate(), Err(DeepSeekError::ConfigError { .. })));
}

#[test]
fn reasoner_config_changes_only_the_model() {
    let base = cfg();
    let r = reasoner_config(&base);
    assert_eq!(r.model, "deepseek-reasoner");
    assert_eq!(r.api_key, base.api_key);
    assert_eq!(r.base_url, base.base_url);
    assert_eq!(r.timeout, base.timeout);
    assert_eq!(r.max_tokens, base.max_tokens);
    assert_eq!(r.temperature, base.temperature);
}

#[test]
fn official_host_recognition() {
    assert!(is_official_deepseek_host("https://api.deepseek.com"));
    assert!(is_official_deepseek_host("https://api.deepseek.com/v1"));
    assert!(!is_official_deepseek_host("https://example.com"));
    assert!(!is_official_deepseek_host("http://api.deepseek.com"));
}

#[test]
fn model_name_mapping() {
    assert_eq!(map_model_string_to_ext("deepseek-reasoner"), ModelKind::DeepSeekReasoner);
    assert_eq!(map_model_string_to_ext("deepseek-chat"), ModelKind::DeepSeekChat);
    assert_eq!(map_model_string_to_ext("anything-else"), ModelKind::DeepSeekChat);
}

#[test]
fn status_classification() {
    assert!(matches!(classify_http_status(429, "b".to_string()), DeepSeekError::ServerBusy));
    assert!(matches!(classify_http_status(503, "b".to_string()), DeepSeekError::ServerBusy));
    assert!(matches!(classify_http_status(502, "b".to_string()), DeepSeekError::ServerBusy));
    assert!(matches!(classify_http_status(504, "b".to_string()), DeepSeekError::ServerBusy));
    match classify_http_status(500, "boom".to_string()) {
        DeepSeekError::ApiError { status, message } => {
            assert_eq!(status, 500);
            assert_eq!(message, "boom");
        },
        _ => panic!("expected an API error"),
    }
}

#[test]
fn transport_error_classification() {
    assert!(matches!(
        classify_transport_error(true, false, false, "x", 30),
        DeepSeekError::Timeout { seconds: 30 }
    ));
    match classify_transport_error(false, true, false, "x", 30) {
        DeepSeekError::NetworkError { message } => assert_eq!(message, "Failed to connect to server"),
        _ => panic!("expected a network error"),
    }
    match classify_transport_error(false, false, true, "x", 30) {
        DeepSeekError::NetworkError { message } => assert_eq!(message, "Request failed"),
        _ => panic!("expected a network error"),
    }
    match classify_transport_error(false, false, false, "DNS lookup broke", 30) {
        DeepSeekError::NetworkError { message } => assert_eq!(message, "DNS resolution failed"),
        _ => panic!("expected a network error"),
    }
    match classify_transport_error(false, false, false, "Connection Refused by peer", 30) {
        DeepSeekError::NetworkError { message } => {
            assert_eq!(message, "Connection refused by server")
        },
        _ => panic!("expected a network error"),
    }
    match classify_transport_error(false, false, false, "the Network dropped", 30) {
        DeepSeekError::NetworkError { message } => assert_eq!(message, "the Network dropped"),
        _ => panic!("expected a network error"),
    }
    match classify_transport_error(false, false, false, "odd failure", 30) {
        DeepSeekError::NetworkError { message } => assert_eq!(message, "Request error: odd failure"),
        _ => panic!("expected a network error"),
    }
}

#[test]
fn retry_policy_backs_off_then_gives_up() {
    // A busy server is retried after 500 ms, then 1000 ms, then surfaced.
    let busy = DeepSeekError::ServerBusy;
    assert_eq!(next_send_action(&busy, 0), RetryDecision::RetryAfterMs(500));
    assert_eq!(next_send_action(&busy, 1), RetryDecision::RetryAfterMs(1000));
    assert_eq!(next_send_action(&busy, 2), RetryDecision::GiveUp);
    let net = DeepSeekError::NetworkError { message: "down".to_string() };
    assert_eq!(next_send_action(&net, 0), RetryDecision::RetryAfterMs(500));
    assert_eq!(next_send_action(&net, 1), RetryDecision::RetryAfterMs(1000));
    assert_eq!(next_send_action(&net, 2), RetryDecision::GiveUp);
}

#[test]
fn retry_policy_never_retries_other_kinds() {
    let api = DeepSeekError::ApiError { status: 500, message: "no".to_string() };
    assert_eq!(next_send_action(&api, 0), RetryDecision::GiveUp);
    let to = DeepSeekError::Timeout { seconds: 30 };
    assert_eq!(next_send_action(&to, 0), RetryDecision::GiveUp);
    let pe = DeepSeekError::ParseError { message: "no".to_string() };
    assert_eq!(next_send_action(&pe, 0), RetryDecision::GiveUp);
}

#[test]
fn retry_boundary_walkthrough() {
    // A transport that fails twice with a busy server and then succeeds:
    // the policy asks for exactly two retries, 500 ms then 1000 ms.
    let outcomes: Vec<Result<&str, DeepSeekError>> =
        vec![Err(DeepSeekError::ServerBusy), Err(DeepSeekError::ServerBusy), Ok("reply")];
    let mut attempts: u64 = 0;
    let mut delays: Vec<u64> = Vec::new();
    let mut result: Option<&str> = None;
    for outcome in outcomes {
        match outcome {
            Ok(v) => {
                result = Some(v);
                break;
            },
            Err(e) => match next_send_action(&e, attempts) {
                RetryDecision::RetryAfterMs(ms) => {
                    delays.push(ms);
                    attempts += 1;
                },
                RetryDecision::GiveUp => break,
            },
        }
    }
    assert_eq!(result, Some("reply"));
    assert_eq!(delays, vec![500, 1000]);
    // An immediate API error is surfaced with no retry at all.
    let first = DeepSeekError::ApiError { status: 500, message: "no".to_string() };
    assert_eq!(next_send_action(&first, 0), RetryDecision::GiveUp);
}

#[test]
fn request_body_is_exact() {
    let messages = vec![
        ChatMessage { role: "system".to_string(), content: "be terse".to_string() },
        ChatMessage { role: "user".to_string(), content: "hi".to_string() },
    ];
    let body = build_chat_request(&cfg(), &messages);
    let expected = "{\"model\":\"deepseek-chat\",\"messages\":[{\"role\":\"system\",\"content\":\"be terse\"},{\"role\":\"user\",\"content\":\"hi\"}],\"response_format\":{\"type\":\"json_object\"},\"max_tokens\":1024,\"temperature\":0.7}";
    assert_eq!(body, expected);
}

#[test]
fn reply_extraction_takes_first_choice() {
    let body = "{\"choices\":[{\"message\":{\"role\":\"assistant\",\"content\":\"first\"}},{\"message\":{\"role\":\"assistant\",\"content\":\"second\"}}]}";
    assert_eq!(extract_reply(body).unwrap(), "first");
}

#[test]
fn reply_extraction_flags_empty_choices() {
    match extract_reply("{\"choices\": []}") {
        Err(DeepSeekError::ParseError { message }) => {
            assert_eq!(message, "No choices in API response");
        },
        other => panic!("expected a parse error, got {:?}", other),
    }
}

#[test]
fn reply_extraction_flags_bad_bodies() {
    assert!(matches!(extract_reply("not json"), Err(DeepSeekError::ParseError { .. })));
    assert!(matches!(extract_reply("[]"), Err(DeepSeekError::ParseError { .. })));
    assert!(matches!(extract_reply("{\"other\":1}"), Err(DeepSeekError::ParseError { .. })));
    assert!(matches!(
        extract_reply("{\"choices\":[{\"message\":{\"role\":\"assistant\"}}]}"),
        Err(DeepSeekError::ParseError { .. })
    ));
}

#[test]
fn user_messages_are_fixed_lines() {
    assert_eq!(
        DeepSeekError::ServerBusy.user_message(),
        "\u{1F6AB} DeepSeek servers are currently busy. Please try again in a few moments."
    );
    assert_eq!(
        DeepSeekError::Timeout { seconds: 30 }.user_message(),
        "\u{23F0} Request timed out after 30 seconds. The server might be overloaded."
    );
    assert_eq!(
        DeepSeekError::ApiError { status: 429, message: String::new() }.user_message(),
        "\u{1F6AB} Rate limit exceeded. Please wait a moment before trying again."
    );
    assert_eq!(
        DeepSeekError::ApiError { status: 500, message: String::new() }.user_message(),
        "\u{274C} API error (500). Please try again later."
    );
    assert_eq!(
        DeepSeekError::ConfigError { message: "bad".to_string() }.user_message(),
        "\u{2699}\u{FE0F} Configuration error: bad"
    );
}

#[test]
fn busy_and_network_predicates() {
    assert!(DeepSeekError::ServerBusy.is_server_busy());
    assert!(!DeepSeekError::ServerBusy.is_network_error());
    let net = DeepSeekError::NetworkError { message: "x".to_string() };
    assert!(net.is_network_error());
    assert!(!net.is_server_busy());
}
