use image_recognition::db::model_config::ModelConfig;
use image_recognition::services::adapter::start_call;
use image_recognition::services::llm::{
    history_entry, plan_recognition, recognize, select_provider, test_connection,
    test_connection_with_config, AdapterConfig, ConfigLookup, Provider, RecognitionOptions,
    RecognitionResult,
};

fn config(provider: &str, active: bool) -> ModelConfig {
    ModelConfig {
        id: 7,
        name: "main".to_string(),
        provider: provider.to_string(),
        api_url: "https://example.test/v1".to_string(),
        api_key: "sk-key".to_string(),
        api_key_encrypted: "sealed".to_string(),
        model_name: "vision-1".to_string(),
        max_tokens: 2048,
        is_active: active,
        is_default: false,
        created_at: "2024-01-01".to_string(),
        updated_at: "2024-01-02".to_string(),
    }
}

fn failure(message: &str) -> RecognitionResult {
    RecognitionResult {
        success: false,
        content: None,
        error: Some(message.to_string()),
        tokens_used: None,
        duration_ms: None,
        processed_image: None,
    }
}

#[test]
fn provider_names_are_a_closed_mapping() {
    assert_eq!(select_provider("openai"), Some(Provider::OpenAi));
    assert_eq!(select_provider("azure"), Some(Provider::OpenAi));
    assert_eq!(select_provider("oneapi"), Some(Provider::OpenAi));
    assert_eq!(select_provider("custom"), Some(Provider::OpenAi));
    assert_eq!(select_provider("anthropic"), Some(Provider::Anthropic));
    assert_eq!(select_provider("OpenAI"), None);
    assert_eq!(select_provider(""), None);
    assert_eq!(select_provider("unsupported-x"), None);
}

#[test]
fn inactive_configuration_ends_the_recognition_without_a_call() {
    let plan = plan_recognition(&ConfigLookup::Found(config("openai", false)));
    assert_eq!(plan, Err(failure("该配置已禁用")));

    let lookup = ConfigLookup::Found(config("openai", false));
    let start = recognize(&lookup, "QUJD", "image/png", "say", None, true);
    assert_eq!(start, Err(failure("该配置已禁用")));
}

#[test]
fn unsupported_provider_is_named_in_the_error() {
    let plan = plan_recognition(&ConfigLookup::Found(config("unsupported-x", true)));
    assert_eq!(plan, Err(failure("不支持的供应商类型: unsupported-x")));
    assert!(plan.unwrap_err().error.unwrap().contains("unsupported-x"));

    let lookup = ConfigLookup::Found(config("unsupported-x", true));
    let start = recognize(&lookup, "QUJD", "image/png", "say", None, false);
    assert_eq!(start, Err(failure("不支持的供应商类型: unsupported-x")));
}

#[test]
fn missing_and_failed_lookups_have_messages_of_their_own() {
    assert_eq!(plan_recognition(&ConfigLookup::Missing), Err(failure("配置不存在")));
    assert_eq!(
        plan_recognition(&ConfigLookup::Failed("disk".to_string())),
        Err(failure("获取配置失败: disk"))
    );
}

#[test]
fn active_configuration_gives_the_call() {
    let adapter = AdapterConfig {
        api_url: "https://example.test/v1".to_string(),
        api_key: "sk-key".to_string(),
        model_name: "vision-1".to_string(),
        max_tokens: 2048,
    };
    assert_eq!(
        plan_recognition(&ConfigLookup::Found(config("anthropic", true))),
        Ok((Provider::Anthropic, adapter.clone()))
    );
    assert_eq!(
        plan_recognition(&ConfigLookup::Found(config("azure", true))),
        Ok((Provider::OpenAi, adapter.clone()))
    );
    assert_eq!(AdapterConfig::from(&config("openai", true)), adapter);
}

#[test]
fn connection_test_takes_an_inactive_configuration() {
    assert!(test_connection(&ConfigLookup::Found(config("openai", false))).is_ok());
    assert_eq!(test_connection(&ConfigLookup::Missing), Err("配置不存在".to_string()));
    assert_eq!(
        test_connection(&ConfigLookup::Failed("x".to_string())),
        Err("获取配置失败: x".to_string())
    );
    assert_eq!(
        test_connection(&ConfigLookup::Found(config("nope", true))),
        Err("不支持的供应商类型: nope".to_string())
    );
}

#[test]
fn trial_parameters_allow_a_hundred_tokens() {
    let plan = test_connection_with_config("custom", "u", "k", "m").unwrap();
    assert_eq!(plan.0, Provider::OpenAi);
    assert_eq!(
        plan.1,
        AdapterConfig {
            api_url: "u".to_string(),
            api_key: "k".to_string(),
            model_name: "m".to_string(),
            max_tokens: 100
        }
    );
    assert_eq!(
        test_connection_with_config("x", "u", "k", "m"),
        Err("不支持的供应商类型: x".to_string())
    );
}

#[test]
fn history_keeps_a_success_and_no_failure() {
    let cfg = config("openai", true);
    let ok = RecognitionResult::succeeded("text".to_string(), Some(12), 4_294_967_297);
    let entry = history_entry(&cfg, "QUJD", "image/png", "what?", &ok).unwrap();
    assert_eq!(entry.config_id, 7);
    assert_eq!(entry.config_name, "main");
    assert_eq!(entry.image_thumbnail.as_deref(), Some("data:image/png;base64,QUJD"));
    assert_eq!(entry.prompt, "what?");
    assert_eq!(entry.result, "text");
    assert_eq!(entry.tokens_used, Some(12));
    assert_eq!(entry.duration_ms, Some(1));
    let failed = RecognitionResult::failed("no".to_string(), Some(3));
    assert!(history_entry(&cfg, "QUJD", "image/png", "what?", &failed).is_none());
}

#[test]
fn recognition_begins_with_the_request_of_the_protocol() {
    let stored = config("anthropic", true);
    let adapter = AdapterConfig::from(&stored);
    let lookup = ConfigLookup::Found(stored);

    let (provider, request) =
        recognize(&lookup, "QUJD", "image/png", "say", None, true).unwrap();
    assert_eq!(provider, Provider::Anthropic);
    assert_eq!(request.url, "https://example.test/v1");
    assert_eq!(request.timeout_secs, 120);
    assert!(!request.streaming);
    let none = RecognitionOptions::none();
    let same =
        start_call(Provider::Anthropic, &adapter, "QUJD", "image/png", "say", &none, true);
    assert_eq!(Ok(request), same);

    let mut streamed = RecognitionOptions::none();
    streamed.stream = Some(true);
    let (_, request) =
        recognize(&lookup, "QUJD", "image/png", "say", Some(streamed), true).unwrap();
    assert!(request.streaming);
}

#[test]
fn recognition_looks_at_the_configuration_before_the_image() {
    let start = recognize(&ConfigLookup::Missing, "", "image/png", "say", None, false);
    assert_eq!(start, Err(failure("配置不存在")));

    let lookup = ConfigLookup::Found(config("custom", true));
    let start = recognize(&lookup, "", "image/png", "say", None, false);
    assert_eq!(start, Err(failure("Image data is empty")));
}
