use image_recognition::db::history::{
    delete_history_records, export_history, get_history_records, row_to_record, HistoryQueryParams,
    HistoryRecord,
};
use image_recognition::db::model_config::{
    create_config, row_to_list_item, row_to_model, update_config, ModelConfigInput,
    ModelConfigUpdate,
};
use image_recognition::db::prompt_template::{
    create_template, default_prompts, get_recent_templates, init_default_prompts, row_to_template,
    update_template, PromptTemplate, TemplateUpdate,
};
use image_recognition::db::settings::{
    flag_setting, number_setting, parse_number, setting_text, text_setting,
};
use image_recognition::db::statement::{flag_value, join, SqlValue};
use image_recognition::json::{Json, JsonNumber};
use image_recognition::utils::crypto::encrypt_with_nonce;

fn t(s: &str) -> SqlValue {
    SqlValue::Text(s.to_string())
}

#[test]
fn history_row_becomes_a_record() {
    let record = row_to_record(
        1,
        2,
        "main".to_string(),
        None,
        Some("thumb".to_string()),
        "p".to_string(),
        "r".to_string(),
        Some(3),
        None,
        "now".to_string(),
    );
    assert_eq!(
        record,
        HistoryRecord {
            id: 1,
            config_id: 2,
            config_name: "main".to_string(),
            image_path: None,
            image_thumbnail: Some("thumb".to_string()),
            prompt: "p".to_string(),
            result: "r".to_string(),
            tokens_used: Some(3),
            duration_ms: None,
            created_at: "now".to_string(),
        }
    );
}

#[test]
fn history_query_without_conditions() {
    let query = get_history_records(&HistoryQueryParams::default());
    assert_eq!(query.page, 1);
    assert_eq!(query.page_size, 20);
    assert_eq!(query.count.sql, "SELECT COUNT(*) FROM recognition_history ");
    assert!(query.count.params.is_empty());
    assert_eq!(
        query.select.sql,
        "SELECT id, config_id, config_name, image_path, image_thumbnail, prompt, result, tokens_used, duration_ms, created_at FROM recognition_history  ORDER BY created_at DESC LIMIT ? OFFSET ?"
    );
    assert_eq!(query.select.params, vec![SqlValue::Integer(20), SqlValue::Integer(0)]);
}

#[test]
fn history_query_with_every_condition() {
    let params = HistoryQueryParams {
        page: Some(3),
        page_size: Some(10),
        config_id: Some(7),
        keyword: Some("cat".to_string()),
        start_date: Some("2024-01-01".to_string()),
        end_date: Some("2024-02-01".to_string()),
    };
    let query = get_history_records(&params);
    let clause = "WHERE config_id = ? AND (prompt LIKE ? OR result LIKE ?) AND created_at >= ? AND created_at <= ?";
    assert_eq!(query.count.sql, format!("SELECT COUNT(*) FROM recognition_history {}", clause));
    let binds = vec![SqlValue::Integer(7), t("%cat%"), t("%cat%"), t("2024-01-01"), t("2024-02-01")];
    assert_eq!(query.count.params, binds);
    let mut paged = binds.clone();
    paged.push(SqlValue::Integer(10));
    paged.push(SqlValue::Integer(20));
    assert_eq!(query.select.params, paged);
    assert!(query.select.sql.ends_with(&format!("{} ORDER BY created_at DESC LIMIT ? OFFSET ?", clause)));
    let one = HistoryQueryParams { keyword: Some("x".to_string()), ..HistoryQueryParams::default() };
    assert_eq!(
        get_history_records(&one).count.sql,
        "SELECT COUNT(*) FROM recognition_history WHERE (prompt LIKE ? OR result LIKE ?)"
    );
}

#[test]
fn export_reads_one_large_page() {
    let params = HistoryQueryParams {
        page: Some(9),
        page_size: Some(3),
        config_id: Some(1),
        ..HistoryQueryParams::default()
    };
    let query = export_history(params);
    assert_eq!((query.page, query.page_size), (1, 10000));
    assert_eq!(
        query.select.params,
        vec![SqlValue::Integer(1), SqlValue::Integer(10000), SqlValue::Integer(0)]
    );
}

#[test]
fn delete_of_several_records() {
    assert_eq!(delete_history_records(&[]), None);
    let one = delete_history_records(&[5]).unwrap();
    assert_eq!(one.sql, "DELETE FROM recognition_history WHERE id IN (?)");
    assert_eq!(one.params, vec![SqlValue::Integer(5)]);
    let three = delete_history_records(&[1, -2, 3]).unwrap();
    assert_eq!(three.sql, "DELETE FROM recognition_history WHERE id IN (?, ?, ?)");
    assert_eq!(three.params, vec![SqlValue::Integer(1), SqlValue::Integer(-2), SqlValue::Integer(3)]);
}

#[test]
fn config_rows_open_the_credential() {
    let sealed = encrypt_with_nonce("sk-1234567890abcdef", &[1u8; 12]).unwrap();
    let row = || {
        (
            "main".to_string(),
            "openai".to_string(),
            "url".to_string(),
            sealed.clone(),
            "m".to_string(),
            "c".to_string(),
            "u".to_string(),
        )
    };
    let (name, provider, url, key, model, created, updated) = row();
    let config = row_to_model(4, name, provider, url, key, model, 100, 1, 2, created, updated);
    assert_eq!(config.api_key, "sk-1234567890abcdef");
    assert_eq!(config.api_key_encrypted, sealed);
    assert!(config.is_active);
    assert!(!config.is_default);
    assert_eq!((config.id, config.max_tokens), (4, 100));
    let (name, provider, url, key, model, created, updated) = row();
    let item = row_to_list_item(4, name, provider, url, key, model, 100, 0, 1, created, updated).unwrap();
    assert_eq!(item.api_key_masked, "sk-1********cdef");
    assert!(!item.is_active);
    assert!(item.is_default);
    let (name, provider, url, _, model, created, updated) = row();
    let broken =
        row_to_list_item(4, name, provider, url, "junk".to_string(), model, 100, 1, 0, created, updated)
            .unwrap();
    assert_eq!(broken.api_key_masked, "");
    let (name, provider, url, _, model, created, updated) = row();
    let config = row_to_model(4, name, provider, url, "junk".to_string(), model, 1, 1, 0, created, updated);
    assert_eq!(config.api_key, "");
}

#[test]
fn config_row_with_a_key_that_cannot_be_masked_gives_no_item() {
    let sealed = encrypt_with_nonce("abcä1234567", &[1u8; 12]).unwrap();
    let item = row_to_list_item(
        1,
        "n".to_string(),
        "p".to_string(),
        "u".to_string(),
        sealed,
        "m".to_string(),
        1,
        1,
        1,
        "c".to_string(),
        "u".to_string(),
    );
    assert_eq!(item, None);
}

#[test]
fn created_config_gets_the_defaults() {
    let input = ModelConfigInput {
        name: "n".to_string(),
        provider: "openai".to_string(),
        api_url: "u".to_string(),
        api_key: "k".to_string(),
        model_name: "m".to_string(),
        max_tokens: None,
        is_active: None,
        is_default: None,
    };
    let write = create_config(&input, "sealed".to_string());
    assert!(write.statement.sql.starts_with("INSERT INTO model_configs (name, provider,"));
    assert_eq!(
        write.statement.params,
        vec![
            t("n"),
            t("openai"),
            t("u"),
            t("sealed"),
            t("m"),
            SqlValue::Integer(4096),
            SqlValue::Integer(1),
            SqlValue::Integer(0),
        ]
    );
    assert!(!write.clears_other_defaults);
    let input = ModelConfigInput {
        max_tokens: Some(5),
        is_active: Some(false),
        is_default: Some(true),
        ..input
    };
    let write = create_config(&input, "sealed".to_string());
    assert_eq!(
        write.statement.params[5..],
        [SqlValue::Integer(5), SqlValue::Integer(0), SqlValue::Integer(1)]
    );
    assert!(write.clears_other_defaults);
}

#[test]
fn updated_config_sets_what_is_present() {
    let nothing = ModelConfigUpdate {
        name: None,
        provider: None,
        api_url: None,
        api_key: None,
        model_name: None,
        max_tokens: None,
        is_active: None,
        is_default: None,
    };
    let write = update_config(9, &nothing, None);
    assert_eq!(
        write.statement.sql,
        "UPDATE model_configs SET updated_at = datetime('now', 'localtime') WHERE id = ?"
    );
    assert_eq!(write.statement.params, vec![SqlValue::Integer(9)]);
    assert!(!write.clears_other_defaults);
    let all = ModelConfigUpdate {
        name: Some("n".to_string()),
        provider: Some("p".to_string()),
        api_url: Some("u".to_string()),
        api_key: Some("k".to_string()),
        model_name: Some("m".to_string()),
        max_tokens: Some(8),
        is_active: Some(false),
        is_default: Some(true),
    };
    let write = update_config(9, &all, Some("sealed".to_string()));
    assert_eq!(
        write.statement.sql,
        "UPDATE model_configs SET name = ?, provider = ?, api_url = ?, api_key_encrypted = ?, model_name = ?, max_tokens = ?, is_active = ?, is_default = ?, updated_at = datetime('now', 'localtime') WHERE id = ?"
    );
    assert_eq!(
        write.statement.params,
        vec![
            t("n"),
            t("p"),
            t("u"),
            t("sealed"),
            t("m"),
            SqlValue::Integer(8),
            SqlValue::Integer(0),
            SqlValue::Integer(1),
            SqlValue::Integer(9),
        ]
    );
    assert!(write.clears_other_defaults);
    let off = ModelConfigUpdate { is_default: Some(false), ..nothing };
    assert!(!update_config(9, &off, None).clears_other_defaults);
}

#[test]
fn templates() {
    assert_eq!(
        row_to_template(1, "n".to_string(), "c".to_string(), 1, 4, "t".to_string()),
        PromptTemplate {
            id: 1,
            name: "n".to_string(),
            content: "c".to_string(),
            is_default: true,
            use_count: 4,
            created_at: "t".to_string(),
        }
    );
    assert!(!row_to_template(1, "n".to_string(), "c".to_string(), 2, 4, "t".to_string()).is_default);
    let prompts = default_prompts();
    assert_eq!(prompts.len(), 5);
    assert_eq!(prompts[0], ("通用识别", "请识别这张图片的内容，并用中文详细描述。", true));
    assert_eq!(prompts.iter().filter(|p| p.2).count(), 1);
    assert_eq!(init_default_prompts(0), prompts);
    assert!(init_default_prompts(3).is_empty());
    assert_eq!(get_recent_templates(None), 5);
    assert_eq!(get_recent_templates(Some(2)), 2);
    let write = create_template("n", "c", true);
    let statement = write.statement.unwrap();
    assert_eq!(statement.sql, "INSERT INTO prompt_templates (name, content, is_default) VALUES (?1, ?2, ?3)");
    assert_eq!(statement.params, vec![t("n"), t("c"), SqlValue::Integer(1)]);
    assert!(write.clears_other_defaults);
    let empty = TemplateUpdate { name: None, content: None, is_default: None };
    let write = update_template(3, &empty);
    assert_eq!(write.statement, None);
    assert!(!write.clears_other_defaults);
    let full = TemplateUpdate {
        name: Some("n".to_string()),
        content: Some("c".to_string()),
        is_default: Some(true),
    };
    let write = update_template(3, &full);
    let statement = write.statement.unwrap();
    assert_eq!(statement.sql, "UPDATE prompt_templates SET name = ?, content = ?, is_default = ? WHERE id = ?");
    assert_eq!(statement.params, vec![t("n"), t("c"), SqlValue::Integer(1), SqlValue::Integer(3)]);
    assert!(write.clears_other_defaults);
}

#[test]
fn statement_helpers() {
    assert_eq!(join(&vec![], ", "), "");
    assert_eq!(join(&vec!["a"], ", "), "a");
    assert_eq!(join(&vec!["a", "b", "c"], " AND "), "a AND b AND c");
    assert_eq!(flag_value(true), 1);
    assert_eq!(flag_value(false), 0);
}

#[test]
fn numbers_are_read_as_the_store_writes_them() {
    assert_eq!(parse_number("2048"), Some(2048));
    assert_eq!(parse_number("-17"), Some(-17));
    assert_eq!(parse_number("+5"), Some(5));
    assert_eq!(parse_number("007"), Some(7));
    assert_eq!(parse_number("-0"), Some(0));
    assert_eq!(parse_number("2147483647"), Some(i32::MAX));
    assert_eq!(parse_number("2147483648"), None);
    assert_eq!(parse_number("-2147483648"), Some(i32::MIN));
    assert_eq!(parse_number("-2147483649"), None);
    assert_eq!(parse_number("99999999999999999999999999"), None);
    assert_eq!(parse_number(""), None);
    assert_eq!(parse_number("-"), None);
    assert_eq!(parse_number("+"), None);
    assert_eq!(parse_number("+-1"), None);
    assert_eq!(parse_number(" 1"), None);
    assert_eq!(parse_number("1 "), None);
    assert_eq!(parse_number("1.0"), None);
    assert_eq!(parse_number("12a"), None);
    assert_eq!(parse_number("١٢"), None);
    for text in ["2048", "-17", "+5", "007", "2147483648", "-2147483648", "", "-", "1.0", " 1"] {
        assert_eq!(parse_number(text), text.parse::<i32>().ok());
    }
}

#[test]
fn settings_fall_back_to_their_defaults() {
    assert_eq!(text_setting(Some("dark"), "system"), "dark");
    assert_eq!(text_setting(None, "system"), "system");
    assert_eq!(number_setting(Some("10"), 2048), 10);
    assert_eq!(number_setting(Some("ten"), 2048), 2048);
    assert_eq!(number_setting(None, 2048), 2048);
    assert!(flag_setting(Some("true"), false));
    assert!(!flag_setting(Some("True"), true));
    assert!(!flag_setting(Some("1"), true));
    assert!(flag_setting(None, true));
    assert!(!flag_setting(None, false));
}

#[test]
fn setting_values_are_stored_as_text() {
    assert_eq!(setting_text(&Json::text("dark")), Some("dark".to_string()));
    assert_eq!(setting_text(&Json::Bool(true)), Some("true".to_string()));
    assert_eq!(setting_text(&Json::Bool(false)), Some("false".to_string()));
    assert_eq!(setting_text(&Json::integer(0)), Some("0".to_string()));
    assert_eq!(setting_text(&Json::integer(2048)), Some("2048".to_string()));
    assert_eq!(setting_text(&Json::integer(-15)), Some("-15".to_string()));
    assert_eq!(setting_text(&Json::integer(i64::MIN)), Some(i64::MIN.to_string()));
    assert_eq!(setting_text(&Json::integer(i64::MAX)), Some(i64::MAX.to_string()));
    assert_eq!(
        setting_text(&Json::Number(JsonNumber::Literal("0.4".to_string()))),
        Some("0.4".to_string())
    );
    assert_eq!(setting_text(&Json::Null), None);
    assert_eq!(setting_text(&Json::Array(vec![])), None);
    assert_eq!(setting_text(&Json::Object(vec![])), None);
}
