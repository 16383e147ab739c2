//! The types that every provider adapter shares, and the decisions of the
//! recognition orchestrator.

use crate::db::history::HistoryInput;
use crate::db::model_config::ModelConfig;
use crate::json::{Json, JsonModel};
use crate::services::adapter::{call_start, start_call, HttpRequest, RequestModel};
use crate::text::{concat, optional_text, str_eq};
use vstd::prelude::*;

verus! {

/// The outcome of one recognition call.
#[derive(Debug, Clone, PartialEq, Eq)]
pub struct RecognitionResult {
    pub success: bool,
    pub content: Option<String>,
    pub error: Option<String>,
    pub tokens_used: Option<i32>,
    pub duration_ms: Option<i64>,
    pub processed_image: Option<String>,
}

/// The mathematical value of a [`RecognitionResult`].
pub struct ResultModel {
    pub success: bool,
    pub content: Option<Seq<char>>,
    pub error: Option<Seq<char>>,
    pub tokens_used: Option<i32>,
    pub duration_ms: Option<i64>,
    pub processed_image: Option<Seq<char>>,
}

impl View for RecognitionResult {
    type V = ResultModel;

    open spec fn view(&self) -> ResultModel {
        ResultModel {
            success: self.success,
            content: optional_text(self.content),
            error: optional_text(self.error),
            tokens_used: self.tokens_used,
            duration_ms: self.duration_ms,
            processed_image: optional_text(self.processed_image),
        }
    }
}

impl ResultModel {
    /// A result is either a success with content and no error, or a
    /// failure with an error and no content.
    pub open spec fn consistent(self) -> bool {
        if self.success {
            self.content is Some && self.error is None
        } else {
            self.error is Some && self.content is None
        }
    }

    /// The success that carries `content`.
    pub open spec fn succeeded(
        content: Seq<char>,
        tokens_used: Option<i32>,
        duration_ms: i64,
    ) -> ResultModel {
        ResultModel {
            success: true,
            content: Some(content),
            error: None,
            tokens_used,
            duration_ms: Some(duration_ms),
            processed_image: None,
        }
    }

    /// The failure that reports `error`.
    pub open spec fn failed(error: Seq<char>, duration_ms: Option<i64>) -> ResultModel {
        ResultModel {
            success: false,
            content: None,
            error: Some(error),
            tokens_used: None,
            duration_ms,
            processed_image: None,
        }
    }
}

impl RecognitionResult {
    /// The success that carries `content`.
    pub fn succeeded(content: String, tokens_used: Option<i32>, duration_ms: i64) -> (result:
        RecognitionResult)
        ensures
            result@ == ResultModel::succeeded(content@, tokens_used, duration_ms),
            result@.consistent(),
    {
        RecognitionResult {
            success: true,
            content: Some(content),
            error: None,
            tokens_used,
            duration_ms: Some(duration_ms),
            processed_image: None,
        }
    }

    /// The failure that reports `error`.
    pub fn failed(error: String, duration_ms: Option<i64>) -> (result: RecognitionResult)
        ensures
            result@ == ResultModel::failed(error@, duration_ms),
            result@.consistent(),
    {
        RecognitionResult {
            success: false,
            content: None,
            error: Some(error),
            tokens_used: None,
            duration_ms,
            processed_image: None,
        }
    }
}

/// What a caller may ask of one recognition call. A number that the wire
/// format carries as a decimal fraction is held as the JSON value to send.
pub struct RecognitionOptions {
    pub temperature: Option<Json>,
    pub top_p: Option<Json>,
    pub max_tokens: Option<i32>,
    pub stream: Option<bool>,
    pub custom_params: Option<Json>,
}

/// The mathematical value of [`RecognitionOptions`].
pub struct OptionsModel {
    pub temperature: Option<JsonModel>,
    pub top_p: Option<JsonModel>,
    pub max_tokens: Option<i32>,
    pub stream: Option<bool>,
    pub custom_params: Option<JsonModel>,
}

/// The value of an optional document.
pub open spec fn optional_json(json: Option<Json>) -> Option<JsonModel> {
    match json {
        Some(value) => Some(value@),
        None => None,
    }
}

impl View for RecognitionOptions {
    type V = OptionsModel;

    open spec fn view(&self) -> OptionsModel {
        OptionsModel {
            temperature: optional_json(self.temperature),
            top_p: optional_json(self.top_p),
            max_tokens: self.max_tokens,
            stream: self.stream,
            custom_params: optional_json(self.custom_params),
        }
    }
}

impl RecognitionOptions {
    /// The options that ask for nothing.
    pub fn none() -> (options: RecognitionOptions)
        ensures
            options@ == (OptionsModel {
                temperature: None,
                top_p: None,
                max_tokens: None,
                stream: None,
                custom_params: None,
            }),
    {
        RecognitionOptions {
            temperature: None,
            top_p: None,
            max_tokens: None,
            stream: None,
            custom_params: None,
        }
    }
}

/// The connection parameters of one call.
#[derive(Debug, Clone, PartialEq, Eq)]
pub struct AdapterConfig {
    pub api_url: String,
    pub api_key: String,
    pub model_name: String,
    pub max_tokens: i32,
}

impl<'a> From<&'a ModelConfig> for AdapterConfig {
    fn from(config: &'a ModelConfig) -> (adapter: AdapterConfig)
    {
        AdapterConfig {
            api_url: config.api_url.clone(),
            api_key: config.api_key.clone(),
            model_name: config.model_name.clone(),
            max_tokens: config.max_tokens,
        }
    }
}

impl<'a> vstd::std_specs::convert::FromSpecImpl<&'a ModelConfig> for AdapterConfig {
    open spec fn obeys_from_spec() -> bool {
        true
    }

    open spec fn from_spec(config: &'a ModelConfig) -> AdapterConfig {
        AdapterConfig {
            api_url: config.api_url,
            api_key: config.api_key,
            model_name: config.model_name,
            max_tokens: config.max_tokens,
        }
    }
}

/// The wire protocols that the library speaks.
#[derive(Debug, Clone, Copy, PartialEq, Eq, Structural)]
pub enum Provider {
    OpenAi,
    Anthropic,
}

/// The protocol that the provider name `name` stands for: the OpenAI
/// protocol for `openai`, `azure`, `oneapi` and `custom`, the Anthropic
/// protocol for `anthropic`, none for any other name.
pub open spec fn provider_named(name: Seq<char>) -> Option<Provider> {
    if name == "openai"@ || name == "azure"@ || name == "oneapi"@ || name == "custom"@ {
        Some(Provider::OpenAi)
    } else if name == "anthropic"@ {
        Some(Provider::Anthropic)
    } else {
        None
    }
}

/// Selects the protocol by the provider name.
pub fn select_provider(name: &str) -> (provider: Option<Provider>)
    ensures
        provider == provider_named(name@),
{
    if str_eq(name, "openai") || str_eq(name, "azure") || str_eq(name, "oneapi") || str_eq(
        name,
        "custom",
    ) {
        Some(Provider::OpenAi)
    } else if str_eq(name, "anthropic") {
        Some(Provider::Anthropic)
    } else {
        None
    }
}

/// What the store gave for a configuration id: the configuration, nothing,
/// or the text of its failure.
pub enum ConfigLookup {
    Found(ModelConfig),
    Missing,
    Failed(String),
}

/// The message for a provider name that stands for no protocol.
pub open spec fn unsupported_message(provider: Seq<char>) -> Seq<char> {
    "不支持的供应商类型: "@ + provider
}

/// The connection parameters that a configuration gives.
pub open spec fn adapter_of(config: ModelConfig) -> AdapterConfig {
    AdapterConfig {
        api_url: config.api_url,
        api_key: config.api_key,
        model_name: config.model_name,
        max_tokens: config.max_tokens,
    }
}

/// What the orchestrator decides before anything is sent: the protocol and
/// the connection parameters of the call, or the failure that ends the
/// recognition there. A lookup that failed, a configuration that is
/// missing, one that is not active and a provider name that stands for no
/// protocol each end it, with a message of their own.
pub open spec fn planned(lookup: ConfigLookup) -> Result<(Provider, AdapterConfig), ResultModel> {
    match lookup {
        ConfigLookup::Failed(e) => Err(ResultModel::failed("获取配置失败: "@ + e@, None)),
        ConfigLookup::Missing => Err(ResultModel::failed("配置不存在"@, None)),
        ConfigLookup::Found(config) => if !config.is_active {
            Err(ResultModel::failed("该配置已禁用"@, None))
        } else {
            match provider_named(config.provider@) {
                Some(provider) => Ok((provider, adapter_of(config))),
                None => Err(ResultModel::failed(unsupported_message(config.provider@), None)),
            }
        },
    }
}

/// The value of a plan.
pub open spec fn plan_model(plan: Result<(Provider, AdapterConfig), RecognitionResult>) -> Result<
    (Provider, AdapterConfig),
    ResultModel,
> {
    match plan {
        Ok(call) => Ok(call),
        Err(result) => Err(result@),
    }
}

/// Decides how a recognition goes on after the lookup of its
/// configuration: with a call of a protocol, or with a failure and no
/// call.
pub fn plan_recognition(lookup: &ConfigLookup) -> (plan: Result<
    (Provider, AdapterConfig),
    RecognitionResult,
>)
    ensures
        plan_model(plan) == planned(*lookup),
        plan matches Err(result) ==> result@.consistent(),
{
    match lookup {
        ConfigLookup::Failed(e) => Err(
            RecognitionResult::failed(concat("获取配置失败: ", e.as_str()), None),
        ),
        ConfigLookup::Missing => Err(
            RecognitionResult::failed(String::from_str("配置不存在"), None),
        ),
        ConfigLookup::Found(config) => {
            if !config.is_active {
                return Err(RecognitionResult::failed(String::from_str("该配置已禁用"), None));
            }
            match select_provider(config.provider.as_str()) {
                Some(provider) => Ok((provider, AdapterConfig::from(config))),
                None => Err(
                    RecognitionResult::failed(
                        concat("不支持的供应商类型: ", config.provider.as_str()),
                        None,
                    ),
                ),
            }
        },
    }
}

/// The options of a call: those given, or those that ask for nothing.
pub open spec fn options_or_none(options: Option<OptionsModel>) -> OptionsModel {
    match options {
        Some(given) => given,
        None => OptionsModel {
            temperature: None,
            top_p: None,
            max_tokens: None,
            stream: None,
            custom_params: None,
        },
    }
}

/// What a recognition begins with, after the lookup of its configuration:
/// the protocol and the request to send, or the result that ends the
/// recognition with nothing sent. The lookup decides first, then the
/// image.
pub open spec fn recognition_start(
    lookup: ConfigLookup,
    image_base64: Seq<char>,
    image_mime_type: Seq<char>,
    prompt: Seq<char>,
    options: Option<OptionsModel>,
    has_callback: bool,
) -> Result<(Provider, RequestModel), ResultModel> {
    match planned(lookup) {
        Err(result) => Err(result),
        Ok((provider, config)) => match call_start(
            provider,
            config,
            image_base64,
            image_mime_type,
            prompt,
            options_or_none(options),
            has_callback,
        ) {
            Ok(request) => Ok((provider, request)),
            Err(result) => Err(result),
        },
    }
}

/// The value of the start of a recognition.
pub open spec fn recognition_model(start: Result<(Provider, HttpRequest), RecognitionResult>) -> Result<
    (Provider, RequestModel),
    ResultModel,
> {
    match start {
        Ok((provider, request)) => Ok((provider, request@)),
        Err(result) => Err(result@),
    }
}

/// The options given, as values.
pub open spec fn options_model(options: Option<RecognitionOptions>) -> Option<OptionsModel> {
    match options {
        Some(given) => Some(given@),
        None => None,
    }
}

/// Begins a recognition with the configuration that was looked up: gives
/// the protocol and the request to send, or the result that ends the
/// recognition before anything is sent. The reply to the request ends the
/// recognition; a success is then kept in the history.
pub fn recognize(
    lookup: &ConfigLookup,
    image_base64: &str,
    image_mime_type: &str,
    prompt: &str,
    options: Option<RecognitionOptions>,
    has_callback: bool,
) -> (start: Result<(Provider, HttpRequest), RecognitionResult>)
    ensures
        recognition_model(start) == recognition_start(
            *lookup,
            image_base64@,
            image_mime_type@,
            prompt@,
            options_model(options),
            has_callback,
        ),
        start matches Err(result) ==> result@.consistent(),
{
    let (provider, config) = match plan_recognition(lookup) {
        Ok(plan) => plan,
        Err(result) => {
            return Err(result);
        },
    };
    let options = match options {
        Some(given) => given,
        None => RecognitionOptions::none(),
    };
    match start_call(
        provider,
        &config,
        image_base64,
        image_mime_type,
        prompt,
        &options,
        has_callback,
    ) {
        Ok(request) => Ok((provider, request)),
        Err(result) => Err(result),
    }
}

/// What a connection test of a stored configuration begins with: the
/// protocol and the connection parameters, or the verdict that ends the
/// test. A configuration that is not active is tested like any other.
pub open spec fn probe_planned(lookup: ConfigLookup) -> Result<
    (Provider, AdapterConfig),
    Seq<char>,
> {
    match lookup {
        ConfigLookup::Failed(e) => Err("获取配置失败: "@ + e@),
        ConfigLookup::Missing => Err("配置不存在"@),
        ConfigLookup::Found(config) => match provider_named(config.provider@) {
            Some(provider) => Ok((provider, adapter_of(config))),
            None => Err(unsupported_message(config.provider@)),
        },
    }
}

/// The value of the plan of a connection test.
pub open spec fn probe_plan_model(plan: Result<(Provider, AdapterConfig), String>) -> Result<
    (Provider, AdapterConfig),
    Seq<char>,
> {
    match plan {
        Ok(call) => Ok(call),
        Err(message) => Err(message@),
    }
}

/// Decides how the connection test of a stored configuration goes on
/// after the lookup: with a probe of a protocol, or with the message of a
/// failed test.
pub fn test_connection(lookup: &ConfigLookup) -> (plan: Result<(Provider, AdapterConfig), String>)
    ensures
        probe_plan_model(plan) == probe_planned(*lookup),
{
    match lookup {
        ConfigLookup::Failed(e) => Err(concat("获取配置失败: ", e.as_str())),
        ConfigLookup::Missing => Err(String::from_str("配置不存在")),
        ConfigLookup::Found(config) => match select_provider(config.provider.as_str()) {
            Some(provider) => Ok((provider, AdapterConfig::from(config))),
            None => Err(concat("不支持的供应商类型: ", config.provider.as_str())),
        },
    }
}

/// The number of output tokens that the test of parameters not yet stored
/// allows.
pub open spec fn trial_max_tokens() -> i32 {
    100
}

/// Decides how the connection test of parameters that are not stored
/// begins: with a probe of the protocol that the provider name stands
/// for, or with the message for a name that stands for none.
pub fn test_connection_with_config(
    provider: &str,
    api_url: &str,
    api_key: &str,
    model_name: &str,
) -> (plan: Result<(Provider, AdapterConfig), String>)
    ensures
        match plan {
            Ok(call) => {
                &&& provider_named(provider@) == Some(call.0)
                &&& call.1.api_url@ == api_url@
                &&& call.1.api_key@ == api_key@
                &&& call.1.model_name@ == model_name@
                &&& call.1.max_tokens == trial_max_tokens()
            },
            Err(message) => provider_named(provider@) is None && message@ == unsupported_message(
                provider@,
            ),
        },
{
    match select_provider(provider) {
        Some(protocol) => Ok(
            (
                protocol,
                AdapterConfig {
                    api_url: String::from_str(api_url),
                    api_key: String::from_str(api_key),
                    model_name: String::from_str(model_name),
                    max_tokens: 100,
                },
            ),
        ),
        None => Err(concat("不支持的供应商类型: ", provider)),
    }
}

/// The image as the history keeps it: a data URL of the bytes that were
/// sent.
pub open spec fn thumbnail_url(image_mime_type: Seq<char>, image_base64: Seq<char>) -> Seq<char> {
    "data:"@ + image_mime_type + ";base64,"@ + image_base64
}

/// The duration as the history keeps it: cut to 32 bits.
pub open spec fn stored_duration(duration_ms: Option<i64>) -> Option<i32> {
    match duration_ms {
        Some(ms) => Some(ms as i32),
        None => None,
    }
}

/// The text of an optional string, the empty text where there is none.
pub open spec fn text_or_empty(s: Option<String>) -> Seq<char> {
    match s {
        Some(text) => text@,
        None => Seq::empty(),
    }
}

/// The history entry that a recognition leaves: one for a success, with
/// the image that was sent, and none for a failure.
pub fn history_entry(
    config: &ModelConfig,
    image_base64: &str,
    image_mime_type: &str,
    prompt: &str,
    result: &RecognitionResult,
) -> (entry: Option<HistoryInput>)
    ensures
        entry is Some <==> result.success,
        match entry {
            Some(input) => {
                &&& input.config_id == config.id
                &&& input.config_name@ == config.name@
                &&& input.image_thumbnail is Some
                &&& input.image_thumbnail->0@ == thumbnail_url(image_mime_type@, image_base64@)
                &&& input.prompt@ == prompt@
                &&& input.result@ == text_or_empty(result.content)
                &&& input.tokens_used == result.tokens_used
                &&& input.duration_ms == stored_duration(result.duration_ms)
            },
            None => true,
        },
{
    if !result.success {
        return None;
    }
    let mut thumbnail = String::from_str("data:");
    thumbnail.append(image_mime_type);
    thumbnail.append(";base64,");
    thumbnail.append(image_base64);
    let content = match &result.content {
        Some(text) => text.clone(),
        None => String::new(),
    };
    let duration_ms = match result.duration_ms {
        Some(ms) => Some(#[verifier::truncate] (ms as i32)),
        None => None,
    };
    Some(
        HistoryInput {
            config_id: config.id,
            config_name: config.name.clone(),
            image_thumbnail: Some(thumbnail),
            prompt: String::from_str(prompt),
            result: content,
            tokens_used: result.tokens_used,
            duration_ms,
        },
    )
}

} // verus!
