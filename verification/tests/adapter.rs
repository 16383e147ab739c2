use image_recognition::json::{parse, Json, JsonNumber};
use image_recognition::services::adapter::{
    body_result, finish_call, finish_probe, finish_stream, start_call, start_probe,
    status_is_success, status_result, transport_result, Reply, TransportKind,
};
use image_recognition::services::llm::{
    AdapterConfig, Provider, RecognitionOptions, RecognitionResult,
};
use image_recognition::services::stream::StreamDecoder;
use image_recognition::services::{anthropic, openai};

fn config() -> AdapterConfig {
    AdapterConfig {
        api_url: "https://example.test/v1/chat".to_string(),
        api_key: "sk-key".to_string(),
        model_name: "vision-1".to_string(),
        max_tokens: 2048,
    }
}

fn text(s: &str) -> Json {
    Json::Text(s.to_string())
}

fn whole(n: i64) -> Json {
    Json::Number(JsonNumber::Integer(n))
}

fn obj(members: Vec<(&str, Json)>) -> Json {
    Json::Object(members.into_iter().map(|(k, v)| (k.to_string(), v)).collect())
}

fn failure(message: &str, duration: Option<i64>) -> RecognitionResult {
    RecognitionResult {
        success: false,
        content: None,
        error: Some(message.to_string()),
        tokens_used: None,
        duration_ms: duration,
        processed_image: None,
    }
}

#[test]
fn empty_image_ends_the_call_before_anything_is_sent() {
    for provider in [Provider::OpenAi, Provider::Anthropic] {
        let start =
            start_call(provider, &config(), "", "image/png", "p", &RecognitionOptions::none(), true);
        match start {
            Err(result) => assert_eq!(result, failure("Image data is empty", None)),
            Ok(_) => panic!("a request for an empty image"),
        }
    }
}

#[test]
fn openai_request_is_built_from_the_parts() {
    let request = start_call(
        Provider::OpenAi,
        &config(),
        "QUJD",
        "image/png",
        "what is this?",
        &RecognitionOptions::none(),
        true,
    )
    .ok()
    .unwrap();
    assert_eq!(request.url, "https://example.test/v1/chat");
    assert_eq!(request.timeout_secs, 120);
    assert!(!request.streaming);
    assert_eq!(
        request.headers,
        vec![
            ("Content-Type".to_string(), "application/json".to_string()),
            ("Authorization".to_string(), "Bearer sk-key".to_string()),
        ]
    );
    let expected = obj(vec![
        ("model", text("vision-1")),
        (
            "messages",
            Json::Array(vec![obj(vec![
                ("role", text("user")),
                (
                    "content",
                    Json::Array(vec![
                        obj(vec![("type", text("text")), ("text", text("what is this?"))]),
                        obj(vec![
                            ("type", text("image_url")),
                            ("image_url", obj(vec![("url", text("data:image/png;base64,QUJD"))])),
                        ]),
                    ]),
                ),
            ])]),
        ),
        ("max_tokens", whole(2048)),
        ("stream", Json::Bool(false)),
    ]);
    assert_eq!(request.body, expected);
}

#[test]
fn options_go_into_the_body_only_where_they_are_present() {
    let options = RecognitionOptions {
        temperature: Some(Json::Number(JsonNumber::Literal("0.5".to_string()))),
        top_p: None,
        max_tokens: Some(77),
        stream: Some(true),
        custom_params: Some(obj(vec![
            ("seed", whole(9)),
            ("max_tokens", whole(5)),
            ("model", text("other")),
        ])),
    };
    let body = openai::build_body(&config(), "QUJD", "image/png", "p", &options, true);
    assert_eq!(body.get("temperature"), Some(&Json::Number(JsonNumber::Literal("0.5".to_string()))));
    assert_eq!(body.get("top_p"), None);
    assert_eq!(body.get("stream"), Some(&Json::Bool(true)));
    assert_eq!(body.get("seed"), Some(&whole(9)));
    assert_eq!(body.get("max_tokens"), Some(&whole(5)));
    assert_eq!(body.get("model"), Some(&text("other")));
    match &body {
        Json::Object(members) => {
            let keys: Vec<&str> = members.iter().map(|(k, _)| k.as_str()).collect();
            assert_eq!(keys, vec!["model", "messages", "max_tokens", "stream", "temperature", "seed"]);
        }
        _ => panic!("the body is an object"),
    }
    let body = anthropic::build_body(&config(), "QUJD", "image/png", "p", &options, true);
    assert_eq!(body.get("max_tokens"), Some(&whole(77)));
    assert_eq!(body.get("seed"), None);
    assert_eq!(body.get("model"), Some(&text("vision-1")));
    assert!(body.get("temperature").is_some());
}

#[test]
fn streaming_needs_the_request_and_the_callback() {
    let asks = RecognitionOptions { stream: Some(true), ..RecognitionOptions::none() };
    let declines = RecognitionOptions { stream: Some(false), ..RecognitionOptions::none() };
    let silent = RecognitionOptions::none();
    let streaming = |options: &RecognitionOptions, callback: bool| {
        let r = start_call(Provider::Anthropic, &config(), "QUJD", "image/png", "p", options, callback)
            .ok()
            .unwrap();
        assert_eq!(r.body.get("stream"), Some(&Json::Bool(r.streaming)));
        r.streaming
    };
    assert!(streaming(&asks, true));
    assert!(!streaming(&asks, false));
    assert!(!streaming(&declines, true));
    assert!(!streaming(&silent, true));
}

#[test]
fn anthropic_request_is_built_from_the_parts() {
    let request = start_call(
        Provider::Anthropic,
        &config(),
        "QUJD",
        "image/bmp",
        "read",
        &RecognitionOptions::none(),
        false,
    )
    .ok()
    .unwrap();
    assert_eq!(
        request.headers,
        vec![
            ("Content-Type".to_string(), "application/json".to_string()),
            ("x-api-key".to_string(), "sk-key".to_string()),
            ("anthropic-version".to_string(), "2023-06-01".to_string()),
        ]
    );
    let expected = obj(vec![
        ("model", text("vision-1")),
        ("max_tokens", whole(2048)),
        (
            "messages",
            Json::Array(vec![obj(vec![
                ("role", text("user")),
                (
                    "content",
                    Json::Array(vec![
                        obj(vec![
                            ("type", text("image")),
                            (
                                "source",
                                obj(vec![
                                    ("type", text("base64")),
                                    ("media_type", text("image/jpeg")),
                                    ("data", text("QUJD")),
                                ]),
                            ),
                        ]),
                        obj(vec![("type", text("text")), ("text", text("read"))]),
                    ]),
                ),
            ])]),
        ),
        ("stream", Json::Bool(false)),
    ]);
    assert_eq!(request.body, expected);
    assert_eq!(anthropic::media_type_for("image/png"), "image/png");
    assert_eq!(anthropic::media_type_for("image/gif"), "image/gif");
    assert_eq!(anthropic::media_type_for("image/webp"), "image/webp");
    assert_eq!(anthropic::media_type_for("image/jpeg"), "image/jpeg");
    assert_eq!(anthropic::media_type_for("text/plain"), "image/jpeg");
}

#[test]
fn complete_openai_response_gives_content_and_tokens() {
    let body = br#"{"choices":[{"message":{"content":"  {{ {Hello} "}}],"usage":{"total_tokens":42}}"#;
    let result = finish_call(Provider::OpenAi, &Reply::Success { body: body.to_vec() }, 250);
    assert_eq!(result, RecognitionResult::succeeded("Hello} ".to_string(), Some(42), 250));
    let bare = finish_call(Provider::OpenAi, &Reply::Success { body: b"{}".to_vec() }, 1);
    assert_eq!(bare, RecognitionResult::succeeded(String::new(), None, 1));
    let wide = br#"{"choices":[{"message":{"content":"x"}}],"usage":{"total_tokens":4294967298}}"#;
    let result = finish_call(Provider::OpenAi, &Reply::Success { body: wide.to_vec() }, 1);
    assert_eq!(result.tokens_used, Some(2));
}

#[test]
fn complete_anthropic_response_adds_the_token_counts() {
    let body = br#"{"content":[{"type":"text","text":" {Hi"},{"text":"no"}],"usage":{"input_tokens":30,"output_tokens":12}}"#;
    let result = finish_call(Provider::Anthropic, &Reply::Success { body: body.to_vec() }, 9);
    assert_eq!(result, RecognitionResult::succeeded(" {Hi".to_string(), Some(42), 9));
    let bare = finish_call(Provider::Anthropic, &Reply::Success { body: b"{}".to_vec() }, 9);
    assert_eq!(bare, RecognitionResult::succeeded(String::new(), Some(0), 9));
    let half = br#"{"content":[],"usage":{"output_tokens":5}}"#;
    let result = finish_call(Provider::Anthropic, &Reply::Success { body: half.to_vec() }, 9);
    assert_eq!(result.tokens_used, Some(5));
    let doc = parse(body).unwrap();
    assert_eq!(body_result(Provider::Anthropic, &doc, 9).content.as_deref(), Some(" {Hi"));
}

#[test]
fn body_that_is_no_json_is_a_reported_failure() {
    let result = finish_call(Provider::OpenAi, &Reply::Success { body: b"<html>".to_vec() }, 5);
    assert!(!result.success);
    assert_eq!(result.content, None);
    assert_eq!(result.duration_ms, Some(5));
    let message = result.error.unwrap();
    assert!(message.starts_with("解析响应失败: "), "{}", message);
    assert!(message.len() > "解析响应失败: ".len());
}

#[test]
fn statuses_have_their_messages() {
    let of = |provider, status, body: &str| {
        finish_call(provider, &Reply::Status { status, text: body.to_string() }, 3).error.unwrap()
    };
    assert_eq!(of(Provider::OpenAi, 401, "x"), "API 密钥无效");
    assert_eq!(of(Provider::OpenAi, 404, "x"), "API 地址错误或模型不存在");
    assert_eq!(of(Provider::OpenAi, 429, "x"), "请求频率过高或配额已用尽");
    assert_eq!(of(Provider::OpenAi, 403, "denied"), "服务器错误 (403): denied");
    assert_eq!(of(Provider::Anthropic, 403, "denied"), "API 密钥权限不足");
    assert_eq!(of(Provider::Anthropic, 401, "x"), "API 密钥无效");
    assert_eq!(of(Provider::Anthropic, 404, "x"), "API 地址错误或模型不存在");
    assert_eq!(of(Provider::Anthropic, 429, "x"), "请求频率过高或配额已用尽");
    assert_eq!(of(Provider::OpenAi, 500, r#"{"error":{"message":"boom"}}"#), "boom");
    assert_eq!(of(Provider::Anthropic, 500, r#"{"error":{"message":"boom"}}"#), "boom");
    assert_eq!(of(Provider::OpenAi, 500, r#"{"error":"boom"}"#), r#"服务器错误 (500): {"error":"boom"}"#);
    assert_eq!(of(Provider::OpenAi, 65535, ""), "服务器错误 (65535): ");
    assert_eq!(of(Provider::OpenAi, 0, "z"), "服务器错误 (0): z");
    assert_eq!(openai::parse_error_message(502, "bad gateway"), "服务器错误 (502): bad gateway");
    assert_eq!(anthropic::parse_error_message(502, "bad gateway"), "服务器错误 (502): bad gateway");
    let result = status_result(Provider::OpenAi, 401, "", 8);
    assert_eq!(result, failure("API 密钥无效", Some(8)));
}

#[test]
fn transport_failures_have_their_messages() {
    assert_eq!(
        transport_result(TransportKind::Timeout, "t", 1),
        failure("请求超时，请检查网络连接", Some(1))
    );
    assert_eq!(
        transport_result(TransportKind::Connect, "c", 2),
        failure("连接失败，请检查网络连接或 API 地址", Some(2))
    );
    assert_eq!(
        transport_result(TransportKind::Other, "broken pipe", 3),
        failure("请求失败: broken pipe", Some(3))
    );
    let reply = Reply::Transport { kind: TransportKind::Other, detail: "x".to_string() };
    assert_eq!(finish_call(Provider::Anthropic, &reply, 4), failure("请求失败: x", Some(4)));
}

#[test]
fn streamed_call_reports_no_tokens() {
    assert_eq!(
        finish_stream("Hello".to_string(), 12),
        RecognitionResult {
            success: true,
            content: Some("Hello".to_string()),
            error: None,
            tokens_used: None,
            duration_ms: Some(12),
            processed_image: None,
        }
    );
}

#[test]
fn success_statuses() {
    assert!(status_is_success(200));
    assert!(status_is_success(204));
    assert!(status_is_success(299));
    assert!(!status_is_success(199));
    assert!(!status_is_success(300));
    assert!(!status_is_success(404));
}

#[test]
fn connection_test_requests() {
    let probe = start_probe(Provider::OpenAi, &config());
    assert_eq!(probe.timeout_secs, 30);
    assert!(!probe.streaming);
    assert_eq!(probe.url, "https://example.test/v1/chat");
    assert_eq!(
        probe.body,
        obj(vec![
            ("model", text("vision-1")),
            (
                "messages",
                Json::Array(vec![obj(vec![("role", text("user")), ("content", text("Hello"))])]),
            ),
            ("max_tokens", whole(5)),
        ])
    );
    let probe = start_probe(Provider::Anthropic, &config());
    assert_eq!(probe.body.get("max_tokens"), Some(&whole(10)));
    assert_eq!(probe.headers.len(), 3);
}

#[test]
fn connection_test_verdicts() {
    let ok = |provider, body: &[u8]| finish_probe(provider, &Reply::Success { body: body.to_vec() });
    assert_eq!(ok(Provider::OpenAi, br#"{"choices":[]}"#), (true, "连接成功".to_string()));
    assert_eq!(ok(Provider::OpenAi, br#"{"choices":{}}"#), (false, "响应格式异常".to_string()));
    assert_eq!(ok(Provider::OpenAi, br#"{"content":[]}"#), (false, "响应格式异常".to_string()));
    assert_eq!(ok(Provider::Anthropic, br#"{"content":[]}"#), (true, "连接成功".to_string()));
    assert_eq!(ok(Provider::Anthropic, br#"[1]"#), (false, "响应格式异常".to_string()));
    assert_eq!(ok(Provider::Anthropic, b"oops"), (false, "响应解析失败".to_string()));
    let status = Reply::Status { status: 401, text: String::new() };
    assert_eq!(finish_probe(Provider::OpenAi, &status), (false, "API 密钥无效".to_string()));
    let timeout = Reply::Transport { kind: TransportKind::Timeout, detail: "t".to_string() };
    assert_eq!(finish_probe(Provider::OpenAi, &timeout), (false, "连接超时".to_string()));
    let refused = Reply::Transport { kind: TransportKind::Connect, detail: "refused".to_string() };
    assert_eq!(finish_probe(Provider::OpenAi, &refused), (false, "连接失败: refused".to_string()));
    let other = Reply::Transport { kind: TransportKind::Other, detail: "x".to_string() };
    assert_eq!(finish_probe(Provider::Anthropic, &other), (false, "连接失败: x".to_string()));
}

#[test]
fn cleaning_drops_leading_white_space_and_braces() {
    assert_eq!(openai::clean_response_content("plain"), "plain");
    assert_eq!(openai::clean_response_content("  plain "), "plain ");
    assert_eq!(openai::clean_response_content("{{{x"), "x");
    assert_eq!(openai::clean_response_content("}} { }\n\t{\"a\": 1}"), "\"a\": 1}");
    assert_eq!(openai::clean_response_content("\u{3000}{\u{a0}x{y}"), "x{y}");
    assert_eq!(openai::clean_response_content("{ } "), "");
    assert_eq!(openai::clean_response_content(""), "");
}

#[test]
fn streamed_and_complete_transport_agree() {
    let stream = b"data: {\"choices\":[{\"delta\":{\"content\":\"Hel\"}}]}\ndata: {\"choices\":[{\"delta\":{\"content\":\"lo\"}}]}\ndata: [DONE]\n";
    let mut decoder = StreamDecoder::new(Provider::OpenAi);
    let mut deltas = decoder.feed(stream);
    let (last, content) = decoder.finish();
    deltas.extend(last);
    assert_eq!(deltas.concat(), content);
    let streamed = finish_stream(content, 5);
    let body = br#"{"choices":[{"message":{"content":"Hello"}}]}"#;
    let complete = finish_call(Provider::OpenAi, &Reply::Success { body: body.to_vec() }, 5);
    assert_eq!(streamed.content, complete.content);
}

#[test]
fn body_that_cannot_be_read_is_a_reported_failure() {
    let reply = Reply::Unreadable { detail: "connection reset".to_string() };
    assert_eq!(
        finish_call(Provider::Anthropic, &reply, 7),
        failure("解析响应失败: connection reset", Some(7))
    );
    assert_eq!(finish_probe(Provider::OpenAi, &reply), (false, "响应解析失败".to_string()));
}

#[test]
fn each_protocol_begins_its_own_calls() {
    let none = RecognitionOptions::none();
    assert_eq!(
        openai::call_openai(&config(), "QUJD", "image/png", "say", &none, true),
        start_call(Provider::OpenAi, &config(), "QUJD", "image/png", "say", &none, true)
    );
    assert_eq!(
        anthropic::call_anthropic(&config(), "QUJD", "image/png", "say", &none, true),
        start_call(Provider::Anthropic, &config(), "QUJD", "image/png", "say", &none, true)
    );
    assert_eq!(
        openai::call_openai(&config(), "", "image/png", "say", &none, true),
        Err(failure("Image data is empty", None))
    );
    assert_eq!(
        anthropic::call_anthropic(&config(), "", "image/png", "say", &none, true),
        Err(failure("Image data is empty", None))
    );
    assert_eq!(openai::test_connection(&config()), start_probe(Provider::OpenAi, &config()));
    assert_eq!(
        anthropic::test_connection(&config()),
        start_probe(Provider::Anthropic, &config())
    );
    assert_ne!(openai::test_connection(&config()), anthropic::test_connection(&config()));
}
