use translate_tool::config::Config;
use translate_tool::translate::{
    build_request, find_translation, read_response, Header, HttpResponse, Method,
};

fn config_with_key(api_key: &str) -> Config {
    Config {
        api_url: "http://host/v1".to_string(),
        api_key: api_key.to_string(),
        model: "latest-chat".to_string(),
        prompt: "Translate to English.".to_string(),
    }
}

fn reply(status: u16, body: &str) -> HttpResponse {
    HttpResponse { status, body: body.to_string() }
}

fn content_of(text: &str, config: &Config) -> String {
    let request = build_request(text, config).unwrap();
    request.body["messages"][0]["content"].as_str().unwrap().to_string()
}

#[test]
fn request_is_a_post_to_the_chat_completions_path() {
    let request = build_request("Bonjour", &config_with_key("")).unwrap();
    assert_eq!(request.method, Method::Post);
    assert_eq!(request.url, "http://host/v1/chat/completions");
}

#[test]
fn request_url_is_the_configured_address_with_the_path_appended() {
    let mut config = config_with_key("");
    config.api_url = "https://example.test:8443/api/".to_string();
    let request = build_request("Bonjour", &config).unwrap();
    assert_eq!(request.url, "https://example.test:8443/api//chat/completions");
    config.api_url = String::new();
    let request = build_request("Bonjour", &config).unwrap();
    assert_eq!(request.url, "/chat/completions");
}

#[test]
fn request_body_has_the_model_and_one_user_message() {
    let request = build_request("Bonjour", &config_with_key("")).unwrap();
    let body = &request.body;
    assert_eq!(body.as_object().unwrap().len(), 2);
    assert_eq!(body["model"].as_str(), Some("latest-chat"));
    let messages = body["messages"].as_array().unwrap();
    assert_eq!(messages.len(), 1);
    assert_eq!(messages[0].as_object().unwrap().len(), 2);
    assert_eq!(messages[0]["role"].as_str(), Some("user"));
    assert_eq!(messages[0]["content"].as_str(), Some("Translate to English.\n\nBonjour"));
}

#[test]
fn request_body_text_is_compact_json() {
    let request = build_request("Bonjour", &config_with_key("")).unwrap();
    assert_eq!(
        request.body_text(),
        Some(
            "{\"messages\":[{\"content\":\"Translate to English.\\n\\nBonjour\",\"role\":\"user\"}],\"model\":\"latest-chat\"}"
                .to_string()
        )
    );
}

#[test]
fn message_is_prompt_blank_line_and_text_verbatim() {
    let config = config_with_key("");
    assert_eq!(content_of("a", &config), "Translate to English.\n\na");
    assert_eq!(
        content_of("Translate to English.", &config),
        "Translate to English.\n\nTranslate to English."
    );
    assert_eq!(content_of("\n\nx\n\n", &config), "Translate to English.\n\n\n\nx\n\n");
    assert_eq!(
        content_of("say \"hi\" \\ {\"a\":1}", &config),
        "Translate to English.\n\nsay \"hi\" \\ {\"a\":1}"
    );
    assert_eq!(
        content_of("\u{3053}\u{3093}\u{306b}\u{3061}\u{306f} \u{1f600}", &config),
        "Translate to English.\n\n\u{3053}\u{3093}\u{306b}\u{3061}\u{306f} \u{1f600}"
    );
    assert_eq!(content_of(" ", &config), "Translate to English.\n\n ");
}

#[test]
fn message_with_an_empty_prompt_still_has_the_blank_line() {
    let mut config = config_with_key("");
    config.prompt = String::new();
    assert_eq!(content_of("text", &config), "\n\ntext");
}

#[test]
fn request_without_a_key_has_no_authorization_header() {
    let request = build_request("Bonjour", &config_with_key("")).unwrap();
    assert_eq!(
        request.headers,
        vec![Header { name: "Content-Type".to_string(), value: "application/json".to_string() }]
    );
    assert!(request.headers.iter().all(|header| !header.name.eq_ignore_ascii_case("authorization")));
}

#[test]
fn request_with_a_key_has_a_bearer_header() {
    let request = build_request("Bonjour", &config_with_key("sk-123")).unwrap();
    assert_eq!(
        request.headers,
        vec![
            Header { name: "Content-Type".to_string(), value: "application/json".to_string() },
            Header { name: "Authorization".to_string(), value: "Bearer sk-123".to_string() },
        ]
    );
}

#[test]
fn an_empty_text_gives_no_request() {
    assert_eq!(build_request("", &config_with_key("")), None);
    assert_eq!(build_request("", &config_with_key("sk-123")), None);
}

#[test]
fn reply_with_the_expected_shape_gives_the_translation() {
    let response = reply(200, r#"{"choices":[{"message":{"content":"Hello"}}]}"#);
    assert_eq!(read_response(&response), Some("Hello".to_string()));
}

#[test]
fn reply_with_more_members_still_gives_the_translation() {
    let body = r#"{"id":"x","choices":[{"index":0,"message":{"role":"assistant","content":"Hello\nworld"},"finish_reason":"stop"},{"message":{"content":"second"}}],"usage":{"total_tokens":7}}"#;
    assert_eq!(read_response(&reply(200, body)), Some("Hello\nworld".to_string()));
}

#[test]
fn reply_with_an_empty_content_gives_the_empty_text() {
    let response = reply(200, r#"{"choices":[{"message":{"content":""}}]}"#);
    assert_eq!(read_response(&response), Some(String::new()));
}

#[test]
fn reply_that_lacks_the_string_gives_nothing() {
    let bodies = [
        r#"{}"#,
        r#"{"choices":[]}"#,
        r#"{"choices":{}}"#,
        r#"{"choices":"Hello"}"#,
        r#"{"choices":[{}]}"#,
        r#"{"choices":[{"message":{}}]}"#,
        r#"{"choices":[{"message":"Hello"}]}"#,
        r#"{"choices":[{"message":{"content":null}}]}"#,
        r#"{"choices":[{"message":{"content":42}}]}"#,
        r#"{"choices":[{"message":{"content":["Hello"]}}]}"#,
        r#"{"choices":[{"message":{"content":{"text":"Hello"}}}]}"#,
        r#"{"choices":[[{"message":{"content":"Hello"}}]]}"#,
        r#"{"error":{"message":"model not found"}}"#,
        r#"[{"choices":[{"message":{"content":"Hello"}}]}]"#,
        r#""Hello""#,
        r#"null"#,
    ];
    for body in bodies {
        assert_eq!(read_response(&reply(200, body)), None, "body: {}", body);
    }
}

#[test]
fn reply_that_is_no_json_gives_nothing() {
    assert_eq!(read_response(&reply(200, "")), None);
    assert_eq!(read_response(&reply(200, "<html>Bad gateway</html>")), None);
    assert_eq!(read_response(&reply(200, r#"{"choices":[{"message":{"content":"Hello"}}]"#)), None);
}

#[test]
fn reply_with_a_status_outside_success_gives_nothing() {
    let body = r#"{"choices":[{"message":{"content":"Hello"}}]}"#;
    assert_eq!(read_response(&reply(199, body)), None);
    assert_eq!(read_response(&reply(200, body)), Some("Hello".to_string()));
    assert_eq!(read_response(&reply(204, body)), Some("Hello".to_string()));
    assert_eq!(read_response(&reply(299, body)), Some("Hello".to_string()));
    assert_eq!(read_response(&reply(300, body)), None);
    assert_eq!(read_response(&reply(401, body)), None);
    assert_eq!(read_response(&reply(500, body)), None);
    assert_eq!(read_response(&reply(0, body)), None);
    assert_eq!(read_response(&reply(u16::MAX, body)), None);
}

#[test]
fn find_translation_follows_the_path_in_a_document() {
    let document: serde_json::Value =
        serde_json::from_str(r#"{"choices":[{"message":{"content":"Hello"}}]}"#).unwrap();
    assert_eq!(find_translation(&document), Some("Hello".to_string()));

    let document: serde_json::Value =
        serde_json::from_str(r#"{"choices":[{"message":{"content":false}}]}"#).unwrap();
    assert_eq!(find_translation(&document), None);

    assert_eq!(find_translation(&serde_json::Value::Null), None);
}

#[test]
fn request_built_by_the_library_can_be_read_back() {
    let request = build_request("Bonjour", &config_with_key("")).unwrap();
    let text = request.body_text().unwrap();
    let parsed: serde_json::Value = serde_json::from_str(&text).unwrap();
    assert_eq!(parsed, request.body);
}
