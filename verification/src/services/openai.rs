//! The OpenAI-style chat-completions protocol: the request that a call
//! sends, and what it reads from a response, a stream event and an error
//! body.

use crate::json::{
    array_1, array_2, child, child_of, element, element_of, entries_model, integer_of,
    lemma_object_view, member, merge, merge_members, object_1, object_2, object_of, put,
    text_of, Json, JsonModel, NumberModel,
};
use crate::services::adapter::{call_start, probe_request, start_model, HttpRequest};
use crate::services::llm::{
    AdapterConfig, OptionsModel, Provider, RecognitionOptions, RecognitionResult,
};
use crate::services::wire::{
    fallback_error_message, fallback_message, headers_model, token_limit, with_optional,
};
use crate::text::{concat, is_white_space, white_space};
use vstd::prelude::*;
use vstd::string::*;

verus! {

/// Whether `c` is a character that the cleaning of a response drops from
/// its start: white space or a brace.
pub open spec fn is_noise(c: char) -> bool {
    is_white_space(c) || c == '{' || c == '}'
}

/// The number of characters that `s` begins with and that are white space
/// or braces.
pub open spec fn noise_len(s: Seq<char>) -> nat
    decreases s.len(),
{
    if s.len() > 0 && is_noise(s[0]) {
        1 + noise_len(s.drop_first())
    } else {
        0
    }
}

/// `s` without the white space and braces that it begins with.
pub open spec fn cleaned(s: Seq<char>) -> Seq<char> {
    s.skip(noise_len(s) as int)
}

/// The noise of `s` is its first `n` characters, where these are noise and
/// the next one, if any, is not.
proof fn lemma_noise_len(s: Seq<char>, n: int)
    requires
        0 <= n <= s.len(),
        forall|k: int| 0 <= k < n ==> is_noise(s[k]),
        n < s.len() ==> !is_noise(s[n]),
    ensures
        noise_len(s) == n,
    decreases n,
{
    if n > 0 {
        let rest = s.drop_first();
        lemma_noise_len(rest, n - 1);
    }
}

/// Drops from the content of a response the white space and the stray
/// braces that it begins with.
pub fn clean_response_content(content: &str) -> (text: String)
    ensures
        text@ == cleaned(content@),
{
    let mut text = String::new();
    let mut kept: bool = false;
    let ghost mut start: int = 0;
    for c in it: content.chars()
        invariant
            it.seq() == content@,
            0 <= start <= it.index(),
            forall|k: int| 0 <= k < start ==> is_noise(content@[k]),
            kept ==> start < it.index() && !is_noise(content@[start]),
            !kept ==> start == it.index(),
            text@ == content@.subrange(start, it.index() as int),
    {
        if kept || !(white_space(c) || c == '{' || c == '}') {
            kept = true;
            text.push(c);
        } else {
            proof {
                start = start + 1;
            }
        }
    }
    proof {
        lemma_noise_len(content@, start);
    }
    text
}

/// The message that stands for a response with the status `status` and the
/// body `body`, where the status is no success.
pub open spec fn status_message(status: u16, body: Seq<char>) -> Seq<char> {
    if status == 401 {
        "API 密钥无效"@
    } else if status == 404 {
        "API 地址错误或模型不存在"@
    } else if status == 429 {
        "请求频率过高或配额已用尽"@
    } else {
        fallback_message(status, body)
    }
}

/// Turns a status that is no success, and the body that came with it,
/// into the message that the caller sees.
pub fn parse_error_message(status: u16, body: &str) -> (message: String)
    ensures
        message@ == status_message(status, body@),
{
    if status == 401 {
        String::from_str("API 密钥无效")
    } else if status == 404 {
        String::from_str("API 地址错误或模型不存在")
    } else if status == 429 {
        String::from_str("请求频率过高或配额已用尽")
    } else {
        fallback_error_message(status, body)
    }
}

/// The text fragment that a stream event carries: the field
/// `choices[0].delta.content` where it is a string that is not empty.
pub open spec fn event_delta(event: JsonModel) -> Option<Seq<char>> {
    match text_of(
        child(child(element(child(Some(event), "choices"@), 0), "delta"@), "content"@),
    ) {
        Some(text) => if text.len() > 0 {
            Some(text)
        } else {
            None
        },
        None => None,
    }
}

/// Reads the text fragment of a stream event.
pub fn delta_text(event: &Json) -> (delta: Option<&str>)
    ensures
        match delta {
            Some(text) => event_delta(event@) == Some(text@),
            None => event_delta(event@) is None,
        },
{
    let node = child_of(
        child_of(element_of(child_of(Some(event), "choices"), 0), "delta"),
        "content",
    );
    match node {
        Some(value) => match value.as_text() {
            Some(text) => if text.unicode_len() > 0 {
                Some(text)
            } else {
                None
            },
            None => None,
        },
        None => None,
    }
}

/// The content of a complete response: the field
/// `choices[0].message.content`, cleaned, where it is a string; the empty
/// text where it is not.
pub open spec fn body_content(body: JsonModel) -> Seq<char> {
    match text_of(
        child(child(element(child(Some(body), "choices"@), 0), "message"@), "content"@),
    ) {
        Some(text) => cleaned(text),
        None => Seq::empty(),
    }
}

/// The token count of a complete response: the field `usage.total_tokens`
/// where it is an integer, cut to 32 bits.
pub open spec fn body_tokens(body: JsonModel) -> Option<i32> {
    match integer_of(child(child(Some(body), "usage"@), "total_tokens"@)) {
        Some(n) => Some(n as i32),
        None => None,
    }
}

/// Reads the content of a complete response.
pub fn response_content(body: &Json) -> (content: String)
    ensures
        content@ == body_content(body@),
{
    let node = child_of(
        child_of(element_of(child_of(Some(body), "choices"), 0), "message"),
        "content",
    );
    match node {
        Some(value) => match value.as_text() {
            Some(text) => clean_response_content(text),
            None => String::new(),
        },
        None => String::new(),
    }
}

/// Reads the token count of a complete response.
pub fn response_tokens(body: &Json) -> (tokens: Option<i32>)
    ensures
        tokens == body_tokens(body@),
{
    let node = child_of(child_of(Some(body), "usage"), "total_tokens");
    match node {
        Some(value) => match value.as_integer() {
            Some(n) => Some(#[verifier::truncate] (n as i32)),
            None => None,
        },
        None => None,
    }
}

/// Whether a reply to the connection test has the shape of a completion:
/// its field `choices` is an array.
pub open spec fn has_choices(body: JsonModel) -> bool {
    match child(Some(body), "choices"@) {
        Some(choices) => choices.is_array(),
        None => false,
    }
}

/// Whether a reply to the connection test has the shape of a completion.
pub fn reply_has_choices(body: &Json) -> (shaped: bool)
    ensures
        shaped == has_choices(body@),
{
    match child_of(Some(body), "choices") {
        Some(choices) => choices.is_array(),
        None => false,
    }
}

/// The URL that carries an image inline.
pub open spec fn data_url(media_type: Seq<char>, image_base64: Seq<char>) -> Seq<char> {
    "data:"@ + media_type + ";base64,"@ + image_base64
}

/// The content block that carries the prompt.
pub open spec fn text_part(prompt: Seq<char>) -> JsonModel {
    JsonModel::Object(
        seq![("type"@, JsonModel::Text("text"@)), ("text"@, JsonModel::Text(prompt))],
    )
}

/// The content block that carries the image.
pub open spec fn image_part(url: Seq<char>) -> JsonModel {
    JsonModel::Object(
        seq![
            ("type"@, JsonModel::Text("image_url"@)),
            ("image_url"@, JsonModel::Object(seq![("url"@, JsonModel::Text(url))])),
        ],
    )
}

/// The one message of a request: the prompt, then the image.
pub open spec fn user_message(prompt: Seq<char>, url: Seq<char>) -> JsonModel {
    JsonModel::Object(
        seq![
            ("role"@, JsonModel::Text("user"@)),
            ("content"@, JsonModel::Array(seq![text_part(prompt), image_part(url)])),
        ],
    )
}

/// The members that every request body has.
pub open spec fn fixed_members(
    model: Seq<char>,
    prompt: Seq<char>,
    url: Seq<char>,
    max_tokens: i32,
    streaming: bool,
) -> Seq<(Seq<char>, JsonModel)> {
    seq![
        ("model"@, JsonModel::Text(model)),
        ("messages"@, JsonModel::Array(seq![user_message(prompt, url)])),
        ("max_tokens"@, JsonModel::Number(NumberModel::Integer(max_tokens as i64))),
        ("stream"@, JsonModel::Bool(streaming)),
    ]
}

/// `entries` with the members of `extra` merged in, where `extra` is
/// present and an object.
pub open spec fn with_extra(
    entries: Seq<(Seq<char>, JsonModel)>,
    extra: Option<JsonModel>,
) -> Seq<(Seq<char>, JsonModel)> {
    match extra {
        Some(JsonModel::Object(members)) => merge_members(entries, members),
        _ => entries,
    }
}

/// The body of a recognition request. The temperature and the top-p value
/// are members only where the options hold them; the extra parameters are
/// merged last and may replace any member.
pub open spec fn request_body(
    model: Seq<char>,
    max_tokens: i32,
    image_base64: Seq<char>,
    media_type: Seq<char>,
    prompt: Seq<char>,
    options: OptionsModel,
    streaming: bool,
) -> JsonModel {
    JsonModel::Object(
        with_extra(
            with_optional(
                with_optional(
                    fixed_members(
                        model,
                        prompt,
                        data_url(media_type, image_base64),
                        token_limit(max_tokens, options.max_tokens),
                        streaming,
                    ),
                    "temperature"@,
                    options.temperature,
                ),
                "top_p"@,
                options.top_p,
            ),
            options.custom_params,
        ),
    )
}

/// Builds the body of a recognition request.
pub fn build_body(
    config: &AdapterConfig,
    image_base64: &str,
    image_mime_type: &str,
    prompt: &str,
    options: &RecognitionOptions,
    streaming: bool,
) -> (body: Json)
    ensures
        body@ == request_body(
            config.model_name@,
            config.max_tokens,
            image_base64@,
            image_mime_type@,
            prompt@,
            options@,
            streaming,
        ),
{
    let mut url = String::from_str("data:");
    url.append(image_mime_type);
    url.append(";base64,");
    url.append(image_base64);
    let text_block = object_2("type", Json::text("text"), "text", Json::text(prompt));
    let image_block = object_2(
        "type",
        Json::text("image_url"),
        "image_url",
        object_1("url", Json::Text(url)),
    );
    let message = object_2(
        "role",
        Json::text("user"),
        "content",
        array_2(text_block, image_block),
    );
    let max_tokens: i32 = match options.max_tokens {
        Some(n) => n,
        None => config.max_tokens,
    };
    let mut entries: Vec<(String, Json)> = Vec::new();
    entries.push(member("model", Json::text(config.model_name.as_str())));
    entries.push(member("messages", array_1(message)));
    entries.push(member("max_tokens", Json::integer(max_tokens as i64)));
    entries.push(member("stream", Json::Bool(streaming)));
    assert(entries_model(entries@) =~= fixed_members(
        config.model_name@,
        prompt@,
        data_url(image_mime_type@, image_base64@),
        token_limit(config.max_tokens, options.max_tokens),
        streaming,
    ));
    if let Some(temperature) = &options.temperature {
        put(&mut entries, String::from_str("temperature"), temperature.duplicate());
    }
    if let Some(top_p) = &options.top_p {
        put(&mut entries, String::from_str("top_p"), top_p.duplicate());
    }
    if let Some(Json::Object(members)) = &options.custom_params {
        proof {
            lemma_object_view(*members);
        }
        merge(&mut entries, members);
    }
    object_of(entries)
}

/// The headers of a request: the content type, and the credential as a
/// bearer token.
pub open spec fn request_headers(api_key: Seq<char>) -> Seq<(Seq<char>, Seq<char>)> {
    seq![
        ("Content-Type"@, "application/json"@),
        ("Authorization"@, "Bearer "@ + api_key),
    ]
}

/// Builds the headers of a request.
pub fn build_headers(config: &AdapterConfig) -> (headers: Vec<(String, String)>)
    ensures
        headers_model(headers@) == request_headers(config.api_key@),
{
    let mut headers: Vec<(String, String)> = Vec::new();
    headers.push((String::from_str("Content-Type"), String::from_str("application/json")));
    headers.push((String::from_str("Authorization"), concat("Bearer ", config.api_key.as_str())));
    headers
}

/// The body of the connection test: a greeting, and room for five tokens.
pub open spec fn probe_body(model: Seq<char>) -> JsonModel {
    JsonModel::Object(
        seq![
            ("model"@, JsonModel::Text(model)),
            (
                "messages"@,
                JsonModel::Array(
                    seq![
                        JsonModel::Object(
                            seq![
                                ("role"@, JsonModel::Text("user"@)),
                                ("content"@, JsonModel::Text("Hello"@)),
                            ],
                        ),
                    ],
                ),
            ),
            ("max_tokens"@, JsonModel::Number(NumberModel::Integer(5))),
        ],
    )
}

/// Builds the body of the connection test.
pub fn build_probe_body(config: &AdapterConfig) -> (body: Json)
    ensures
        body@ == probe_body(config.model_name@),
{
    let message = object_2("role", Json::text("user"), "content", Json::text("Hello"));
    let mut entries: Vec<(String, Json)> = Vec::new();
    entries.push(member("model", Json::text(config.model_name.as_str())));
    entries.push(member("messages", array_1(message)));
    entries.push(member("max_tokens", Json::integer(5)));
    assert(entries_model(entries@) =~= probe_body(config.model_name@)->Object_0);
    object_of(entries)
}

/// Begins a call in the OpenAI protocol: gives the request to send, or
/// the failure that ends the call before anything is sent, where the image
/// is empty. The call streams where the options ask for it and the caller
/// takes the fragments.
pub fn call_openai(
    config: &AdapterConfig,
    image_base64: &str,
    image_mime_type: &str,
    prompt: &str,
    options: &RecognitionOptions,
    has_callback: bool,
) -> (start: Result<HttpRequest, RecognitionResult>)
    ensures
        start_model(start) == call_start(
            Provider::OpenAi,
            *config,
            image_base64@,
            image_mime_type@,
            prompt@,
            options@,
            has_callback,
        ),
{
    if image_base64.is_empty() {
        return Err(RecognitionResult::failed(String::from_str("Image data is empty"), None));
    }
    let streaming = match options.stream {
        Some(asked) => asked && has_callback,
        None => false,
    };
    let headers = build_headers(config);
    let body = build_body(config, image_base64, image_mime_type, prompt, options, streaming);
    Ok(HttpRequest { url: config.api_url.clone(), headers, body, timeout_secs: 120, streaming })
}

/// Begins a connection test in the OpenAI protocol: gives the request to
/// send.
pub fn test_connection(config: &AdapterConfig) -> (request: HttpRequest)
    ensures
        request@ == probe_request(Provider::OpenAi, *config),
{
    let headers = build_headers(config);
    let body = build_probe_body(config);
    HttpRequest { url: config.api_url.clone(), headers, body, timeout_secs: 30, streaming: false }
}

} // verus!
