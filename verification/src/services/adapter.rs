//! One provider call, as far as it is decided here: the request to send,
//! and the result that each reply stands for. Sending and receiving are
//! the caller's.

use crate::json::{json_document, parse_json, Json, JsonModel};
use crate::services::anthropic;
use crate::services::llm::{
    AdapterConfig, OptionsModel, Provider, RecognitionOptions, RecognitionResult, ResultModel,
};
use crate::services::openai;
use crate::services::stream::decode;
use crate::services::wire::headers_model;
use crate::text::concat;
use vstd::prelude::*;
use vstd::string::*;

verus! {

/// A request as the caller sends it: a POST of the JSON body to the URL.
#[derive(Debug, PartialEq, Eq)]
pub struct HttpRequest {
    pub url: String,
    pub headers: Vec<(String, String)>,
    pub body: Json,
    pub timeout_secs: u64,
    pub streaming: bool,
}

/// The mathematical value of an [`HttpRequest`].
pub struct RequestModel {
    pub url: Seq<char>,
    pub headers: Seq<(Seq<char>, Seq<char>)>,
    pub body: JsonModel,
    pub timeout_secs: u64,
    pub streaming: bool,
}

impl View for HttpRequest {
    type V = RequestModel;

    open spec fn view(&self) -> RequestModel {
        RequestModel {
            url: self.url@,
            headers: headers_model(self.headers@),
            body: self.body@,
            timeout_secs: self.timeout_secs,
            streaming: self.streaming,
        }
    }
}

/// How a request failed before a response came.
#[derive(Debug, Clone, Copy, PartialEq, Eq, Structural)]
pub enum TransportKind {
    Timeout,
    Connect,
    Other,
}

/// What came back for a request that was sent whole.
pub enum Reply {
    /// A response with a success status, and its body.
    Success { body: Vec<u8> },
    /// A response with a success status whose body could not be read, and
    /// the text of that failure.
    Unreadable { detail: String },
    /// A response with another status, and the text of its body.
    Status { status: u16, text: String },
    /// No response: the kind of the failure, and its text.
    Transport { kind: TransportKind, detail: String },
}

/// The seconds that a recognition call may take.
pub open spec fn call_timeout() -> u64 {
    120
}

/// The seconds that a connection test may take.
pub open spec fn probe_timeout() -> u64 {
    30
}

/// Whether a status is a success: 200 to 299.
pub open spec fn is_success(status: u16) -> bool {
    200 <= status < 300
}

/// Whether a status is a success.
pub fn status_is_success(status: u16) -> (success: bool)
    ensures
        success == is_success(status),
{
    200 <= status && status < 300
}

/// Whether a call streams: the options ask for it, and the caller has
/// given a place for the fragments to go.
pub open spec fn streams(options: OptionsModel, has_callback: bool) -> bool {
    options.stream == Some(true) && has_callback
}

/// The body of the request of a recognition call.
pub open spec fn call_body(
    provider: Provider,
    config: AdapterConfig,
    image_base64: Seq<char>,
    image_mime_type: Seq<char>,
    prompt: Seq<char>,
    options: OptionsModel,
    streaming: bool,
) -> JsonModel {
    match provider {
        Provider::OpenAi => openai::request_body(
            config.model_name@,
            config.max_tokens,
            image_base64,
            image_mime_type,
            prompt,
            options,
            streaming,
        ),
        Provider::Anthropic => anthropic::request_body(
            config.model_name@,
            config.max_tokens,
            image_base64,
            image_mime_type,
            prompt,
            options,
            streaming,
        ),
    }
}

/// The headers of a request.
pub open spec fn call_headers(provider: Provider, api_key: Seq<char>) -> Seq<
    (Seq<char>, Seq<char>),
> {
    match provider {
        Provider::OpenAi => openai::request_headers(api_key),
        Provider::Anthropic => anthropic::request_headers(api_key),
    }
}

/// What a recognition call begins with: a failure where the image is
/// empty, before anything is sent; else the request to send.
pub open spec fn call_start(
    provider: Provider,
    config: AdapterConfig,
    image_base64: Seq<char>,
    image_mime_type: Seq<char>,
    prompt: Seq<char>,
    options: OptionsModel,
    has_callback: bool,
) -> Result<RequestModel, ResultModel> {
    if image_base64.len() == 0 {
        Err(ResultModel::failed("Image data is empty"@, None))
    } else {
        Ok(
            RequestModel {
                url: config.api_url@,
                headers: call_headers(provider, config.api_key@),
                body: call_body(
                    provider,
                    config,
                    image_base64,
                    image_mime_type,
                    prompt,
                    options,
                    streams(options, has_callback),
                ),
                timeout_secs: call_timeout(),
                streaming: streams(options, has_callback),
            },
        )
    }
}

/// The value of the start of a call.
pub open spec fn start_model(start: Result<HttpRequest, RecognitionResult>) -> Result<
    RequestModel,
    ResultModel,
> {
    match start {
        Ok(request) => Ok(request@),
        Err(result) => Err(result@),
    }
}

/// Begins a recognition call in the protocol of the provider: gives the
/// request to send, or the failure that ends the call before anything is
/// sent.
pub fn start_call(
    provider: Provider,
    config: &AdapterConfig,
    image_base64: &str,
    image_mime_type: &str,
    prompt: &str,
    options: &RecognitionOptions,
    has_callback: bool,
) -> (start: Result<HttpRequest, RecognitionResult>)
    ensures
        start_model(start) == call_start(
            provider,
            *config,
            image_base64@,
            image_mime_type@,
            prompt@,
            options@,
            has_callback,
        ),
{
    match provider {
        Provider::OpenAi => openai::call_openai(
            config,
            image_base64,
            image_mime_type,
            prompt,
            options,
            has_callback,
        ),
        Provider::Anthropic => anthropic::call_anthropic(
            config,
            image_base64,
            image_mime_type,
            prompt,
            options,
            has_callback,
        ),
    }
}

/// The content that a complete response body carries.
pub open spec fn body_content(provider: Provider, body: JsonModel) -> Seq<char> {
    match provider {
        Provider::OpenAi => openai::body_content(body),
        Provider::Anthropic => anthropic::body_content(body),
    }
}

/// The token count that a complete response body reports.
pub open spec fn body_tokens(provider: Provider, body: JsonModel) -> Option<i32> {
    match provider {
        Provider::OpenAi => openai::body_tokens(body),
        Provider::Anthropic => Some(anthropic::body_tokens(body)),
    }
}

/// The result that a parsed response body stands for: a success with the
/// content and the token count of the body, or a failure with the parser's
/// message.
pub open spec fn parsed_outcome(
    provider: Provider,
    parsed: Result<JsonModel, Seq<char>>,
    duration_ms: i64,
) -> ResultModel {
    match parsed {
        Ok(body) => ResultModel::succeeded(
            body_content(provider, body),
            body_tokens(provider, body),
            duration_ms,
        ),
        Err(e) => ResultModel::failed("解析响应失败: "@ + e, Some(duration_ms)),
    }
}

/// The message for a response whose status is no success.
pub open spec fn status_message(provider: Provider, status: u16, body: Seq<char>) -> Seq<char> {
    match provider {
        Provider::OpenAi => openai::status_message(status, body),
        Provider::Anthropic => anthropic::status_message(status, body),
    }
}

/// The message for a recognition call that got no response.
pub open spec fn transport_message(kind: TransportKind, detail: Seq<char>) -> Seq<char> {
    match kind {
        TransportKind::Timeout => "请求超时，请检查网络连接"@,
        TransportKind::Connect => "连接失败，请检查网络连接或 API 地址"@,
        TransportKind::Other => "请求失败: "@ + detail,
    }
}

/// The result that a reply stands for, for a call that did not stream.
pub open spec fn reply_outcome(provider: Provider, reply: Reply, duration_ms: i64) -> ResultModel {
    match reply {
        Reply::Success { body } => parsed_outcome(provider, json_document(body@), duration_ms),
        Reply::Unreadable { detail } => parsed_outcome(provider, Err(detail@), duration_ms),
        Reply::Status { status, text } => ResultModel::failed(
            status_message(provider, status, text@),
            Some(duration_ms),
        ),
        Reply::Transport { kind, detail } => ResultModel::failed(
            transport_message(kind, detail@),
            Some(duration_ms),
        ),
    }
}

/// The result of a call whose response body `body` parsed as a document.
pub fn body_result(provider: Provider, body: &Json, duration_ms: i64) -> (result: RecognitionResult)
    ensures
        result@ == parsed_outcome(provider, Ok(body@), duration_ms),
        result@.consistent(),
{
    match provider {
        Provider::OpenAi => RecognitionResult::succeeded(
            openai::response_content(body),
            openai::response_tokens(body),
            duration_ms,
        ),
        Provider::Anthropic => RecognitionResult::succeeded(
            anthropic::response_content(body),
            Some(anthropic::response_tokens(body)),
            duration_ms,
        ),
    }
}

/// The failure that a response with the status `status` stands for.
pub fn status_result(provider: Provider, status: u16, body: &str, duration_ms: i64) -> (result:
    RecognitionResult)
    ensures
        result@ == ResultModel::failed(status_message(provider, status, body@), Some(duration_ms)),
        result@.consistent(),
{
    let message = match provider {
        Provider::OpenAi => openai::parse_error_message(status, body),
        Provider::Anthropic => anthropic::parse_error_message(status, body),
    };
    RecognitionResult::failed(message, Some(duration_ms))
}

/// The failure that a request without a response stands for.
pub fn transport_result(kind: TransportKind, detail: &str, duration_ms: i64) -> (result:
    RecognitionResult)
    ensures
        result@ == ResultModel::failed(transport_message(kind, detail@), Some(duration_ms)),
        result@.consistent(),
{
    let message = match kind {
        TransportKind::Timeout => String::from_str("请求超时，请检查网络连接"),
        TransportKind::Connect => String::from_str("连接失败，请检查网络连接或 API 地址"),
        TransportKind::Other => concat("请求失败: ", detail),
    };
    RecognitionResult::failed(message, Some(duration_ms))
}

/// Ends a call that did not stream: turns the reply into the result.
pub fn finish_call(provider: Provider, reply: &Reply, duration_ms: i64) -> (result:
    RecognitionResult)
    ensures
        result@ == reply_outcome(provider, *reply, duration_ms),
        result@.consistent(),
{
    match reply {
        Reply::Success { body } => match parse_json(body.as_slice()) {
            Ok(doc) => body_result(provider, &doc, duration_ms),
            Err(e) => RecognitionResult::failed(
                concat("解析响应失败: ", e.as_str()),
                Some(duration_ms),
            ),
        },
        Reply::Unreadable { detail } => RecognitionResult::failed(
            concat("解析响应失败: ", detail.as_str()),
            Some(duration_ms),
        ),
        Reply::Status { status, text } => status_result(
            provider,
            *status,
            text.as_str(),
            duration_ms,
        ),
        Reply::Transport { kind, detail } => transport_result(*kind, detail.as_str(), duration_ms),
    }
}

/// The result of a call that streamed to its end: a success with the text
/// gathered, and no token count.
pub open spec fn stream_outcome(content: Seq<char>, duration_ms: i64) -> ResultModel {
    ResultModel::succeeded(content, None, duration_ms)
}

/// Ends a call that streamed: the text gathered is the content.
pub fn finish_stream(content: String, duration_ms: i64) -> (result: RecognitionResult)
    ensures
        result@ == stream_outcome(content@, duration_ms),
        result@.consistent(),
{
    RecognitionResult::succeeded(content, None, duration_ms)
}

/// The text that a complete response body holds for the content, before
/// any cleaning.
pub open spec fn body_text(provider: Provider, body: JsonModel) -> Seq<char> {
    match provider {
        Provider::OpenAi => match crate::json::text_of(
            crate::json::child(
                crate::json::child(
                    crate::json::element(crate::json::child(Some(body), "choices"@), 0),
                    "message"@,
                ),
                "content"@,
            ),
        ) {
            Some(text) => text,
            None => Seq::empty(),
        },
        Provider::Anthropic => anthropic::body_content(body),
    }
}

/// The two transports agree: where a complete body holds, as its content,
/// the fragments of a stream one after the other, the call that streams and
/// the call that does not give the same content. For the OpenAI protocol
/// this holds of an answer that does not begin with white space or a
/// brace, which the cleaning of a complete body would drop.
pub proof fn lemma_transports_agree(
    provider: Provider,
    chunks: Seq<Seq<u8>>,
    body: JsonModel,
    duration_ms: i64,
)
    requires
        body_text(provider, body) == decode(provider, chunks).0.flatten(),
        provider == Provider::OpenAi ==> openai::cleaned(body_text(provider, body)) == body_text(
            provider,
            body,
        ),
    ensures
        stream_outcome(decode(provider, chunks).1, duration_ms).content == parsed_outcome(
            provider,
            Ok(body),
            duration_ms,
        ).content,
{
    crate::services::stream::lemma_content_is_deltas(provider, chunks);
}

/// The request of a connection test.
pub open spec fn probe_request(provider: Provider, config: AdapterConfig) -> RequestModel {
    RequestModel {
        url: config.api_url@,
        headers: call_headers(provider, config.api_key@),
        body: match provider {
            Provider::OpenAi => openai::probe_body(config.model_name@),
            Provider::Anthropic => anthropic::probe_body(config.model_name@),
        },
        timeout_secs: probe_timeout(),
        streaming: false,
    }
}

/// Begins a connection test in the protocol of the provider: gives the
/// request to send.
pub fn start_probe(provider: Provider, config: &AdapterConfig) -> (request: HttpRequest)
    ensures
        request@ == probe_request(provider, *config),
{
    match provider {
        Provider::OpenAi => openai::test_connection(config),
        Provider::Anthropic => anthropic::test_connection(config),
    }
}

/// Whether a parsed reply to the connection test has the shape that the
/// protocol gives an answer.
pub open spec fn probe_shaped(provider: Provider, body: JsonModel) -> bool {
    match provider {
        Provider::OpenAi => openai::has_choices(body),
        Provider::Anthropic => anthropic::has_content(body),
    }
}

/// The verdict of a connection test for a reply: whether the connection
/// works, and the message to show.
pub open spec fn probe_verdict(provider: Provider, reply: Reply) -> (bool, Seq<char>) {
    match reply {
        Reply::Success { body } => match json_document(body@) {
            Ok(doc) => if probe_shaped(provider, doc) {
                (true, "连接成功"@)
            } else {
                (false, "响应格式异常"@)
            },
            Err(_) => (false, "响应解析失败"@),
        },
        Reply::Unreadable { detail } => (false, "响应解析失败"@),
        Reply::Status { status, text } => (false, status_message(provider, status, text@)),
        Reply::Transport { kind, detail } => if kind == TransportKind::Timeout {
            (false, "连接超时"@)
        } else {
            (false, "连接失败: "@ + detail@)
        },
    }
}

/// Ends a connection test: turns the reply into the verdict.
pub fn finish_probe(provider: Provider, reply: &Reply) -> (verdict: (bool, String))
    ensures
        (verdict.0, verdict.1@) == probe_verdict(provider, *reply),
{
    match reply {
        Reply::Success { body } => match parse_json(body.as_slice()) {
            Ok(doc) => {
                let shaped = match provider {
                    Provider::OpenAi => openai::reply_has_choices(&doc),
                    Provider::Anthropic => anthropic::reply_has_content(&doc),
                };
                if shaped {
                    (true, String::from_str("连接成功"))
                } else {
                    (false, String::from_str("响应格式异常"))
                }
            },
            Err(_) => (false, String::from_str("响应解析失败")),
        },
        Reply::Unreadable { detail } => (false, String::from_str("响应解析失败")),
        Reply::Status { status, text } => {
            let message = match provider {
                Provider::OpenAi => openai::parse_error_message(*status, text.as_str()),
                Provider::Anthropic => anthropic::parse_error_message(*status, text.as_str()),
            };
            (false, message)
        },
        Reply::Transport { kind, detail } => match kind {
            TransportKind::Timeout => (false, String::from_str("连接超时")),
            _ => (false, concat("连接失败: ", detail.as_str())),
        },
    }
}

} // verus!
