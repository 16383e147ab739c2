//! The Anthropic-style messages protocol: the request that a call sends,
//! and what it reads from a response, a stream event and an error body.

use crate::json::{
    array_1, array_2, child, child_of, element, element_of, entries_model, integer_of, member,
    object_2, object_of, put, text_of, Json, JsonModel, NumberModel,
};
use crate::services::adapter::{call_start, probe_request, start_model, HttpRequest};
use crate::services::llm::{
    AdapterConfig, OptionsModel, Provider, RecognitionOptions, RecognitionResult,
};
use crate::services::wire::{
    fallback_error_message, fallback_message, headers_model, token_limit, with_optional,
};
use crate::text::str_eq;
use vstd::prelude::*;
use vstd::string::*;

verus! {

/// The message that stands for a response with the status `status` and the
/// body `body`, where the status is no success.
pub open spec fn status_message(status: u16, body: Seq<char>) -> Seq<char> {
    if status == 401 {
        "API 密钥无效"@
    } else if status == 403 {
        "API 密钥权限不足"@
    } else if status == 404 {
        "API 地址错误或模型不存在"@
    } else if status == 429 {
        "请求频率过高或配额已用尽"@
    } else {
        fallback_message(status, body)
    }
}

/// Turns a status that is no success, and the body that came with it,
/// into the message that the caller sees.
pub fn parse_error_message(status: u16, body: &str) -> (message: String)
    ensures
        message@ == status_message(status, body@),
{
    if status == 401 {
        String::from_str("API 密钥无效")
    } else if status == 403 {
        String::from_str("API 密钥权限不足")
    } else if status == 404 {
        String::from_str("API 地址错误或模型不存在")
    } else if status == 429 {
        String::from_str("请求频率过高或配额已用尽")
    } else {
        fallback_error_message(status, body)
    }
}

/// The text fragment that a stream event carries: the field `delta.text`
/// of an event of the type `content_block_delta` whose delta has the type
/// `text_delta`, where that text is a string that is not empty.
pub open spec fn event_delta(event: JsonModel) -> Option<Seq<char>> {
    let delta = child(Some(event), "delta"@);
    if text_of(child(Some(event), "type"@)) == Some("content_block_delta"@) && text_of(
        child(delta, "type"@),
    ) == Some("text_delta"@) {
        match text_of(child(delta, "text"@)) {
            Some(text) => if text.len() > 0 {
                Some(text)
            } else {
                None
            },
            None => None,
        }
    } else {
        None
    }
}

/// Whether `node` is a string with the characters of `expected`.
fn is_text(node: Option<&Json>, expected: &str) -> (same: bool)
    ensures
        same == (text_of(crate::json::node_model(node)) == Some(expected@)),
{
    match node {
        Some(value) => match value.as_text() {
            Some(text) => str_eq(text, expected),
            None => false,
        },
        None => false,
    }
}

/// Reads the text fragment of a stream event.
pub fn delta_text(event: &Json) -> (delta: Option<&str>)
    ensures
        match delta {
            Some(text) => event_delta(event@) == Some(text@),
            None => event_delta(event@) is None,
        },
{
    let delta = child_of(Some(event), "delta");
    if is_text(child_of(Some(event), "type"), "content_block_delta") && is_text(
        child_of(delta, "type"),
        "text_delta",
    ) {
        match child_of(delta, "text") {
            Some(value) => match value.as_text() {
                Some(text) => if text.unicode_len() > 0 {
                    Some(text)
                } else {
                    None
                },
                None => None,
            },
            None => None,
        }
    } else {
        None
    }
}

/// The content of a complete response: the field `text` of the first
/// content block where it is a string; the empty text where it is not.
pub open spec fn body_content(body: JsonModel) -> Seq<char> {
    match text_of(child(element(child(Some(body), "content"@), 0), "text"@)) {
        Some(text) => text,
        None => Seq::empty(),
    }
}

/// A token count of the usage report, 0 where the report has none.
pub open spec fn usage_count(body: JsonModel, field: Seq<char>) -> i64 {
    match integer_of(child(child(Some(body), "usage"@), field)) {
        Some(n) => n,
        None => 0,
    }
}

/// The token count of a complete response: the input tokens and the
/// output tokens of the usage report added in 64 bits, the sum cut to 32
/// bits.
pub open spec fn body_tokens(body: JsonModel) -> i32 {
    usage_count(body, "input_tokens"@).wrapping_add(usage_count(body, "output_tokens"@)) as i32
}

/// Reads the content of a complete response.
pub fn response_content(body: &Json) -> (content: String)
    ensures
        content@ == body_content(body@),
{
    match child_of(element_of(child_of(Some(body), "content"), 0), "text") {
        Some(value) => match value.as_text() {
            Some(text) => String::from_str(text),
            None => String::new(),
        },
        None => String::new(),
    }
}

/// Reads one token count of the usage report.
fn usage_field(body: &Json, field: &str) -> (count: i64)
    ensures
        count == usage_count(body@, field@),
{
    match child_of(child_of(Some(body), "usage"), field) {
        Some(value) => match value.as_integer() {
            Some(n) => n,
            None => 0,
        },
        None => 0,
    }
}

/// Reads the token count of a complete response.
pub fn response_tokens(body: &Json) -> (tokens: i32)
    ensures
        tokens == body_tokens(body@),
{
    let input = usage_field(body, "input_tokens");
    let output = usage_field(body, "output_tokens");
    #[verifier::truncate]
    (input.wrapping_add(output) as i32)
}

/// Whether a reply to the connection test has the shape of a message: its
/// field `content` is an array.
pub open spec fn has_content(body: JsonModel) -> bool {
    match child(Some(body), "content"@) {
        Some(content) => content.is_array(),
        None => false,
    }
}

/// Whether a reply to the connection test has the shape of a message.
pub fn reply_has_content(body: &Json) -> (shaped: bool)
    ensures
        shaped == has_content(body@),
{
    match child_of(Some(body), "content") {
        Some(content) => content.is_array(),
        None => false,
    }
}

/// The media type that a request names for an image of the type
/// `media_type`: the type itself where it is JPEG, PNG, GIF or WebP, and
/// JPEG for any other.
pub open spec fn wire_media_type(media_type: Seq<char>) -> Seq<char> {
    if media_type == "image/png"@ {
        "image/png"@
    } else if media_type == "image/gif"@ {
        "image/gif"@
    } else if media_type == "image/webp"@ {
        "image/webp"@
    } else {
        "image/jpeg"@
    }
}

/// The media type that a request names for an image.
pub fn media_type_for(image_mime_type: &str) -> (media_type: &'static str)
    ensures
        media_type@ == wire_media_type(image_mime_type@),
{
    if str_eq(image_mime_type, "image/png") {
        "image/png"
    } else if str_eq(image_mime_type, "image/gif") {
        "image/gif"
    } else if str_eq(image_mime_type, "image/webp") {
        "image/webp"
    } else {
        "image/jpeg"
    }
}

/// The content block that carries the image.
pub open spec fn image_part(media_type: Seq<char>, image_base64: Seq<char>) -> JsonModel {
    JsonModel::Object(
        seq![
            ("type"@, JsonModel::Text("image"@)),
            (
                "source"@,
                JsonModel::Object(
                    seq![
                        ("type"@, JsonModel::Text("base64"@)),
                        ("media_type"@, JsonModel::Text(media_type)),
                        ("data"@, JsonModel::Text(image_base64)),
                    ],
                ),
            ),
        ],
    )
}

/// The content block that carries the prompt.
pub open spec fn text_part(prompt: Seq<char>) -> JsonModel {
    JsonModel::Object(
        seq![("type"@, JsonModel::Text("text"@)), ("text"@, JsonModel::Text(prompt))],
    )
}

/// The one message of a request: the image, then the prompt.
pub open spec fn user_message(
    media_type: Seq<char>,
    image_base64: Seq<char>,
    prompt: Seq<char>,
) -> JsonModel {
    JsonModel::Object(
        seq![
            ("role"@, JsonModel::Text("user"@)),
            (
                "content"@,
                JsonModel::Array(seq![image_part(media_type, image_base64), text_part(prompt)]),
            ),
        ],
    )
}

/// The members that every request body has.
pub open spec fn fixed_members(
    model: Seq<char>,
    max_tokens: i32,
    media_type: Seq<char>,
    image_base64: Seq<char>,
    prompt: Seq<char>,
    streaming: bool,
) -> Seq<(Seq<char>, JsonModel)> {
    seq![
        ("model"@, JsonModel::Text(model)),
        ("max_tokens"@, JsonModel::Number(NumberModel::Integer(max_tokens as i64))),
        ("messages"@, JsonModel::Array(seq![user_message(media_type, image_base64, prompt)])),
        ("stream"@, JsonModel::Bool(streaming)),
    ]
}

/// The body of a recognition request. The temperature and the top-p value
/// are members only where the options hold them.
pub open spec fn request_body(
    model: Seq<char>,
    max_tokens: i32,
    image_base64: Seq<char>,
    media_type: Seq<char>,
    prompt: Seq<char>,
    options: OptionsModel,
    streaming: bool,
) -> JsonModel {
    JsonModel::Object(
        with_optional(
            with_optional(
                fixed_members(
                    model,
                    token_limit(max_tokens, options.max_tokens),
                    wire_media_type(media_type),
                    image_base64,
                    prompt,
                    streaming,
                ),
                "temperature"@,
                options.temperature,
            ),
            "top_p"@,
            options.top_p,
        ),
    )
}

/// Builds the body of a recognition request.
pub fn build_body(
    config: &AdapterConfig,
    image_base64: &str,
    image_mime_type: &str,
    prompt: &str,
    options: &RecognitionOptions,
    streaming: bool,
) -> (body: Json)
    ensures
        body@ == request_body(
            config.model_name@,
            config.max_tokens,
            image_base64@,
            image_mime_type@,
            prompt@,
            options@,
            streaming,
        ),
{
    let media_type = media_type_for(image_mime_type);
    let mut source: Vec<(String, Json)> = Vec::new();
    source.push(member("type", Json::text("base64")));
    source.push(member("media_type", Json::text(media_type)));
    source.push(member("data", Json::text(image_base64)));
    assert(entries_model(source@) =~= seq![
        ("type"@, JsonModel::Text("base64"@)),
        ("media_type"@, JsonModel::Text(media_type@)),
        ("data"@, JsonModel::Text(image_base64@)),
    ]);
    let image_block = object_2("type", Json::text("image"), "source", object_of(source));
    let text_block = object_2("type", Json::text("text"), "text", Json::text(prompt));
    let message = object_2(
        "role",
        Json::text("user"),
        "content",
        array_2(image_block, text_block),
    );
    let max_tokens: i32 = match options.max_tokens {
        Some(n) => n,
        None => config.max_tokens,
    };
    let mut entries: Vec<(String, Json)> = Vec::new();
    entries.push(member("model", Json::text(config.model_name.as_str())));
    entries.push(member("max_tokens", Json::integer(max_tokens as i64)));
    entries.push(member("messages", array_1(message)));
    entries.push(member("stream", Json::Bool(streaming)));
    assert(entries_model(entries@) =~= fixed_members(
        config.model_name@,
        token_limit(config.max_tokens, options.max_tokens),
        wire_media_type(image_mime_type@),
        image_base64@,
        prompt@,
        streaming,
    ));
    if let Some(temperature) = &options.temperature {
        put(&mut entries, String::from_str("temperature"), temperature.duplicate());
    }
    if let Some(top_p) = &options.top_p {
        put(&mut entries, String::from_str("top_p"), top_p.duplicate());
    }
    object_of(entries)
}

/// The headers of a request: the content type, the credential, and the
/// version of the protocol.
pub open spec fn request_headers(api_key: Seq<char>) -> Seq<(Seq<char>, Seq<char>)> {
    seq![
        ("Content-Type"@, "application/json"@),
        ("x-api-key"@, api_key),
        ("anthropic-version"@, "2023-06-01"@),
    ]
}

/// Builds the headers of a request.
pub fn build_headers(config: &AdapterConfig) -> (headers: Vec<(String, String)>)
    ensures
        headers_model(headers@) == request_headers(config.api_key@),
{
    let mut headers: Vec<(String, String)> = Vec::new();
    headers.push((String::from_str("Content-Type"), String::from_str("application/json")));
    headers.push((String::from_str("x-api-key"), config.api_key.clone()));
    headers.push((String::from_str("anthropic-version"), String::from_str("2023-06-01")));
    headers
}

/// The body of the connection test: a greeting, and room for ten tokens.
pub open spec fn probe_body(model: Seq<char>) -> JsonModel {
    JsonModel::Object(
        seq![
            ("model"@, JsonModel::Text(model)),
            ("max_tokens"@, JsonModel::Number(NumberModel::Integer(10))),
            (
                "messages"@,
                JsonModel::Array(
                    seq![
                        JsonModel::Object(
                            seq![
                                ("role"@, JsonModel::Text("user"@)),
                                ("content"@, JsonModel::Text("Hello"@)),
                            ],
                        ),
                    ],
                ),
            ),
        ],
    )
}

/// Builds the body of the connection test.
pub fn build_probe_body(config: &AdapterConfig) -> (body: Json)
    ensures
        body@ == probe_body(config.model_name@),
{
    let message = object_2("role", Json::text("user"), "content", Json::text("Hello"));
    let mut entries: Vec<(String, Json)> = Vec::new();
    entries.push(member("model", Json::text(config.model_name.as_str())));
    entries.push(member("max_tokens", Json::integer(10)));
    entries.push(member("messages", array_1(message)));
    assert(entries_model(entries@) =~= probe_body(config.model_name@)->Object_0);
    object_of(entries)
}

/// Begins a call in the Anthropic protocol: gives the request to send, or
/// the failure that ends the call before anything is sent, where the image
/// is empty. The call streams where the options ask for it and the caller
/// takes the fragments.
pub fn call_anthropic(
    config: &AdapterConfig,
    image_base64: &str,
    image_mime_type: &str,
    prompt: &str,
    options: &RecognitionOptions,
    has_callback: bool,
) -> (start: Result<HttpRequest, RecognitionResult>)
    ensures
        start_model(start) == call_start(
            Provider::Anthropic,
            *config,
            image_base64@,
            image_mime_type@,
            prompt@,
            options@,
            has_callback,
        ),
{
    if image_base64.is_empty() {
        return Err(RecognitionResult::failed(String::from_str("Image data is empty"), None));
    }
    let streaming = match options.stream {
        Some(asked) => asked && has_callback,
        None => false,
    };
    let headers = build_headers(config);
    let body = build_body(config, image_base64, image_mime_type, prompt, options, streaming);
    Ok(HttpRequest { url: config.api_url.clone(), headers, body, timeout_secs: 120, streaming })
}

/// Begins a connection test in the Anthropic protocol: gives the request to
/// send.
pub fn test_connection(config: &AdapterConfig) -> (request: HttpRequest)
    ensures
        request@ == probe_request(Provider::Anthropic, *config),
{
    let headers = build_headers(config);
    let body = build_probe_body(config);
    HttpRequest { url: config.api_url.clone(), headers, body, timeout_secs: 30, streaming: false }
}

} // verus!
