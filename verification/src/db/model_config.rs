//! Stored model configurations.

use crate::utils::crypto::{
    can_mask, decrypt_or_empty, decrypted_or_empty, mask_api_key, maskable, masked_bytes,
};
use crate::db::statement::{
    bind, flag, flag_value, join, joined, Clauses, ClausesModel, SqlValue, Statement,
    ValueModel,
};
use crate::text::concat;
use vstd::prelude::*;
use vstd::string::*;
use vstd::utf8::encode_utf8;

verus! {

/// A stored configuration with its credential in the clear.
#[derive(Debug, Clone, PartialEq, Eq)]
pub struct ModelConfig {
    pub id: i64,
    pub name: String,
    pub provider: String,
    pub api_url: String,
    pub api_key: String,
    pub api_key_encrypted: String,
    pub model_name: String,
    pub max_tokens: i32,
    pub is_active: bool,
    pub is_default: bool,
    pub created_at: String,
    pub updated_at: String,
}

/// A stored configuration as lists show it: the credential is masked.
#[derive(Debug, Clone, PartialEq, Eq)]
pub struct ModelConfigListItem {
    pub id: i64,
    pub name: String,
    pub provider: String,
    pub api_url: String,
    pub api_key_masked: String,
    pub model_name: String,
    pub max_tokens: i32,
    pub is_active: bool,
    pub is_default: bool,
    pub created_at: String,
    pub updated_at: String,
}

/// The fields of a configuration to create.
#[derive(Debug, Clone, PartialEq, Eq)]
pub struct ModelConfigInput {
    pub name: String,
    pub provider: String,
    pub api_url: String,
    pub api_key: String,
    pub model_name: String,
    pub max_tokens: Option<i32>,
    pub is_active: Option<bool>,
    pub is_default: Option<bool>,
}

/// The fields of a configuration to change; an absent field stays.
#[derive(Debug, Clone, PartialEq, Eq)]
pub struct ModelConfigUpdate {
    pub name: Option<String>,
    pub provider: Option<String>,
    pub api_url: Option<String>,
    pub api_key: Option<String>,
    pub model_name: Option<String>,
    pub max_tokens: Option<i32>,
    pub is_active: Option<bool>,
    pub is_default: Option<bool>,
}

/// The configuration that a row of the configuration table holds. The
/// credential is opened; one that cannot be opened counts as empty. The
/// table keeps the marks as numbers: one marks a configuration as active,
/// or as the default.
pub fn row_to_model(
    id: i64,
    name: String,
    provider: String,
    api_url: String,
    api_key_encrypted: String,
    model_name: String,
    max_tokens: i32,
    is_active: i32,
    is_default: i32,
    created_at: String,
    updated_at: String,
) -> (config: ModelConfig)
    ensures
        config.id == id,
        config.name == name,
        config.provider == provider,
        config.api_url == api_url,
        config.api_key@ == decrypted_or_empty(api_key_encrypted@),
        config.api_key_encrypted == api_key_encrypted,
        config.model_name == model_name,
        config.max_tokens == max_tokens,
        config.is_active == (is_active == 1),
        config.is_default == (is_default == 1),
        config.created_at == created_at,
        config.updated_at == updated_at,
{
    let api_key = decrypt_or_empty(api_key_encrypted.as_str());
    ModelConfig {
        id,
        name,
        provider,
        api_url,
        api_key,
        api_key_encrypted,
        model_name,
        max_tokens,
        is_active: is_active == 1,
        is_default: is_default == 1,
        created_at,
        updated_at,
    }
}

/// The list item that a row of the configuration table holds: the
/// credential is opened and masked. There is no item where the opened
/// credential cannot be masked.
pub fn row_to_list_item(
    id: i64,
    name: String,
    provider: String,
    api_url: String,
    api_key_encrypted: String,
    model_name: String,
    max_tokens: i32,
    is_active: i32,
    is_default: i32,
    created_at: String,
    updated_at: String,
) -> (listed: Option<ModelConfigListItem>)
    ensures
        listed is Some <==> maskable(decrypted_or_empty(api_key_encrypted@)),
        match listed {
            Some(item) => {
                &&& item.id == id
                &&& item.name == name
                &&& item.provider == provider
                &&& item.api_url == api_url
                &&& encode_utf8(item.api_key_masked@) == masked_bytes(
                    encode_utf8(decrypted_or_empty(api_key_encrypted@)),
                )
                &&& item.model_name == model_name
                &&& item.max_tokens == max_tokens
                &&& item.is_active == (is_active == 1)
                &&& item.is_default == (is_default == 1)
                &&& item.created_at == created_at
                &&& item.updated_at == updated_at
            },
            None => true,
        },
{
    let api_key = decrypt_or_empty(api_key_encrypted.as_str());
    if !can_mask(api_key.as_str()) {
        return None;
    }
    Some(
        ModelConfigListItem {
            id,
            name,
            provider,
            api_url,
            api_key_masked: mask_api_key(api_key.as_str()),
            model_name,
            max_tokens,
            is_active: is_active == 1,
            is_default: is_default == 1,
            created_at,
            updated_at,
        },
    )
}

/// A write to the configuration table: the statement, and whether the
/// default mark of every other configuration is cleared after it.
pub struct ConfigWrite {
    pub statement: Statement,
    pub clears_other_defaults: bool,
}

/// The number of output tokens of a configuration that names none.
pub open spec fn default_max_tokens() -> i32 {
    4096
}

/// The value of an optional number, or `fallback`.
pub open spec fn number_or(value: Option<i32>, fallback: i32) -> i32 {
    match value {
        Some(n) => n,
        None => fallback,
    }
}

/// The value of an optional mark, or `fallback`.
pub open spec fn mark_or(value: Option<bool>, fallback: bool) -> bool {
    match value {
        Some(b) => b,
        None => fallback,
    }
}

/// The values that creating a configuration binds, in the order of the
/// columns: a configuration is active unless it says otherwise, and the
/// default only if it says so.
pub open spec fn created_values(input: ModelConfigInput, api_key_encrypted: Seq<char>) -> Seq<
    ValueModel,
> {
    seq![
        ValueModel::Text(input.name@),
        ValueModel::Text(input.provider@),
        ValueModel::Text(input.api_url@),
        ValueModel::Text(api_key_encrypted),
        ValueModel::Text(input.model_name@),
        ValueModel::Integer(number_or(input.max_tokens, default_max_tokens()) as i64),
        ValueModel::Integer(flag(mark_or(input.is_active, true))),
        ValueModel::Integer(flag(mark_or(input.is_default, false))),
    ]
}

/// The statement that creates a configuration.
pub open spec fn create_sql() -> Seq<char> {
    "INSERT INTO model_configs (name, provider, api_url, api_key_encrypted, model_name, max_tokens, is_active, is_default) VALUES (?1, ?2, ?3, ?4, ?5, ?6, ?7, ?8)"@
}

/// Builds the write that creates a configuration. The credential comes
/// sealed: `api_key_encrypted` is the stored form of `input.api_key`.
pub fn create_config(input: &ModelConfigInput, api_key_encrypted: String) -> (write: ConfigWrite)
    ensures
        write.statement@.sql == create_sql(),
        write.statement@.params == created_values(*input, api_key_encrypted@),
        write.clears_other_defaults == mark_or(input.is_default, false),
{
    let max_tokens: i32 = match input.max_tokens {
        Some(n) => n,
        None => 4096,
    };
    let is_active = match input.is_active {
        Some(b) => b,
        None => true,
    };
    let is_default = match input.is_default {
        Some(b) => b,
        None => false,
    };
    let mut params: Vec<SqlValue> = Vec::new();
    params.push(SqlValue::Text(input.name.clone()));
    params.push(SqlValue::Text(input.provider.clone()));
    params.push(SqlValue::Text(input.api_url.clone()));
    params.push(SqlValue::Text(api_key_encrypted));
    params.push(SqlValue::Text(input.model_name.clone()));
    params.push(SqlValue::Integer(max_tokens as i64));
    params.push(SqlValue::Integer(flag_value(is_active)));
    params.push(SqlValue::Integer(flag_value(is_default)));
    ConfigWrite {
        statement: Statement {
            sql: String::from_str(
                "INSERT INTO model_configs (name, provider, api_url, api_key_encrypted, model_name, max_tokens, is_active, is_default) VALUES (?1, ?2, ?3, ?4, ?5, ?6, ?7, ?8)",
            ),
            params,
        },
        clears_other_defaults: is_default,
    }
}

/// The bound value of an optional text.
pub open spec fn text_value(value: Option<String>) -> Option<Seq<ValueModel>> {
    match value {
        Some(text) => Some(seq![ValueModel::Text(text@)]),
        None => None,
    }
}

/// The bound value of an optional mark.
pub open spec fn mark_value(value: Option<bool>) -> Option<Seq<ValueModel>> {
    match value {
        Some(b) => Some(seq![ValueModel::Integer(flag(b))]),
        None => None,
    }
}

/// The assignments of an update, in the order of the fields: each field
/// that is present gives one, and the time of the update is always set.
pub open spec fn assignments(input: ModelConfigUpdate, api_key_encrypted: Option<String>) -> ClausesModel {
    ClausesModel::none().with("name = ?"@, text_value(input.name)).with(
        "provider = ?"@,
        text_value(input.provider),
    ).with("api_url = ?"@, text_value(input.api_url)).with(
        "api_key_encrypted = ?"@,
        text_value(api_key_encrypted),
    ).with("model_name = ?"@, text_value(input.model_name)).with(
        "max_tokens = ?"@,
        match input.max_tokens {
            Some(n) => Some(seq![ValueModel::Integer(n as i64)]),
            None => None,
        },
    ).with("is_active = ?"@, mark_value(input.is_active)).with(
        "is_default = ?"@,
        mark_value(input.is_default),
    ).with("updated_at = datetime('now', 'localtime')"@, Some(Seq::empty()))
}

/// A copy of an optional text as a bound value.
fn add_text(clauses: &mut Clauses, text: &'static str, value: &Option<String>)
    ensures
        final(clauses)@ == old(clauses)@.with(text@, text_value(*value)),
{
    if let Some(found) = value {
        clauses.add_one(text, SqlValue::Text(found.clone()));
    }
}

/// An optional mark as a bound value.
fn add_mark(clauses: &mut Clauses, text: &'static str, value: Option<bool>)
    ensures
        final(clauses)@ == old(clauses)@.with(text@, mark_value(value)),
{
    if let Some(found) = value {
        clauses.add_one(text, SqlValue::Integer(flag_value(found)));
    }
}

/// Gathers the assignments of an update.
fn update_assignments(input: &ModelConfigUpdate, api_key_encrypted: &Option<String>) -> (found:
    Clauses)
    ensures
        found@ == assignments(*input, *api_key_encrypted),
{
    let mut found = Clauses::new();
    add_text(&mut found, "name = ?", &input.name);
    add_text(&mut found, "provider = ?", &input.provider);
    add_text(&mut found, "api_url = ?", &input.api_url);
    add_text(&mut found, "api_key_encrypted = ?", api_key_encrypted);
    add_text(&mut found, "model_name = ?", &input.model_name);
    if let Some(n) = input.max_tokens {
        found.add_one("max_tokens = ?", SqlValue::Integer(n as i64));
    }
    add_mark(&mut found, "is_active = ?", input.is_active);
    add_mark(&mut found, "is_default = ?", input.is_default);
    found.add("updated_at = datetime('now', 'localtime')");
    found
}

/// Builds the write that updates the configuration `id`: the fields that
/// are present are set, and the time of the update. The credential comes
/// sealed: `api_key_encrypted` is the stored form of `input.api_key`,
/// where the update has one. The other defaults are cleared where the
/// update makes this configuration the default.
pub fn update_config(id: i64, input: &ModelConfigUpdate, api_key_encrypted: Option<String>) -> (write:
    ConfigWrite)
    ensures
        write.statement@.sql == "UPDATE model_configs SET "@ + joined(
            assignments(*input, api_key_encrypted).texts,
            ", "@,
        ) + " WHERE id = ?"@,
        write.statement@.params == assignments(*input, api_key_encrypted).values.push(
            ValueModel::Integer(id),
        ),
        write.clears_other_defaults == (input.is_default == Some(true)),
{
    let found = update_assignments(input, &api_key_encrypted);
    let all = join(&found.texts, ", ");
    let mut sql = concat("UPDATE model_configs SET ", all.as_str());
    sql.append(" WHERE id = ?");
    let mut params = found.values;
    bind(&mut params, SqlValue::Integer(id));
    let clears = match input.is_default {
        Some(b) => b,
        None => false,
    };
    ConfigWrite { statement: Statement { sql, params }, clears_other_defaults: clears }
}

} // verus!
