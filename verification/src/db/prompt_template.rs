//! Prompt templates.

use crate::db::statement::{
    bind, flag, flag_value, join, joined, Clauses, ClausesModel, SqlValue, Statement,
    ValueModel,
};
use crate::text::concat;
use vstd::prelude::*;
use vstd::string::*;

verus! {

/// A stored prompt template.
#[derive(Debug, Clone, PartialEq, Eq)]
pub struct PromptTemplate {
    pub id: i64,
    pub name: String,
    pub content: String,
    pub is_default: bool,
    pub use_count: i32,
    pub created_at: String,
}

/// The fields of a template to change; an absent field stays.
#[derive(Debug, Clone, PartialEq, Eq)]
pub struct TemplateUpdate {
    pub name: Option<String>,
    pub content: Option<String>,
    pub is_default: Option<bool>,
}

/// The template that a row of the template table holds. The table keeps
/// the default mark as a number: one marks the default.
pub fn row_to_template(
    id: i64,
    name: String,
    content: String,
    is_default: i32,
    use_count: i32,
    created_at: String,
) -> (template: PromptTemplate)
    ensures
        template == (PromptTemplate {
            id,
            name,
            content,
            is_default: is_default == 1,
            use_count,
            created_at,
        }),
{
    PromptTemplate { id, name, content, is_default: is_default == 1, use_count, created_at }
}

/// A write to the template table: the statement, where one is needed, and
/// whether the default mark of every other template is cleared after it.
pub struct TemplateWrite {
    pub statement: Option<Statement>,
    pub clears_other_defaults: bool,
}

/// The templates that a new store begins with: name, content, and
/// whether the template is the default.
pub open spec fn first_templates() -> Seq<(&'static str, &'static str, bool)> {
    seq![
        ("通用识别", "请识别这张图片的内容，并用中文详细描述。", true),
        ("文字提取", "请提取图片中的所有文字内容，保持原有格式。", false),
        ("表格识别", "请识别图片中的表格，并以 Markdown 格式输出。", false),
        ("代码识别", "请识别图片中的代码，保持原有格式和缩进。", false),
        ("公式识别", "请识别图片中的数学公式，并以 LaTeX 格式输出。", false),
    ]
}

/// Gives the templates that a new store begins with.
pub fn default_prompts() -> (prompts: Vec<(&'static str, &'static str, bool)>)
    ensures
        prompts@ == first_templates(),
{
    let mut prompts: Vec<(&'static str, &'static str, bool)> = Vec::new();
    prompts.push(("通用识别", "请识别这张图片的内容，并用中文详细描述。", true));
    prompts.push(("文字提取", "请提取图片中的所有文字内容，保持原有格式。", false));
    prompts.push(("表格识别", "请识别图片中的表格，并以 Markdown 格式输出。", false));
    prompts.push(("代码识别", "请识别图片中的代码，保持原有格式和缩进。", false));
    prompts.push(("公式识别", "请识别图片中的数学公式，并以 LaTeX 格式输出。", false));
    prompts
}

/// The templates to put into a store that holds `count` templates: the
/// templates that a new store begins with where it holds none, and none
/// where it holds any.
pub fn init_default_prompts(count: i32) -> (prompts: Vec<(&'static str, &'static str, bool)>)
    ensures
        prompts@ == if count == 0 {
            first_templates()
        } else {
            Seq::empty()
        },
{
    if count == 0 {
        default_prompts()
    } else {
        Vec::new()
    }
}

/// The statement that creates a template.
pub open spec fn create_sql() -> Seq<char> {
    "INSERT INTO prompt_templates (name, content, is_default) VALUES (?1, ?2, ?3)"@
}

/// Builds the write that creates a template; the other defaults are
/// cleared where the new template is the default.
pub fn create_template(name: &str, content: &str, is_default: bool) -> (write: TemplateWrite)
    ensures
        write.statement is Some,
        write.statement->0@.sql == create_sql(),
        write.statement->0@.params == seq![
            ValueModel::Text(name@),
            ValueModel::Text(content@),
            ValueModel::Integer(flag(is_default)),
        ],
        write.clears_other_defaults == is_default,
{
    let mut params: Vec<SqlValue> = Vec::new();
    params.push(SqlValue::Text(String::from_str(name)));
    params.push(SqlValue::Text(String::from_str(content)));
    params.push(SqlValue::Integer(flag_value(is_default)));
    TemplateWrite {
        statement: Some(
            Statement {
                sql: String::from_str(
                    "INSERT INTO prompt_templates (name, content, is_default) VALUES (?1, ?2, ?3)",
                ),
                params,
            },
        ),
        clears_other_defaults: is_default,
    }
}

/// The bound value of an optional text.
pub open spec fn text_value(value: Option<String>) -> Option<Seq<ValueModel>> {
    match value {
        Some(text) => Some(seq![ValueModel::Text(text@)]),
        None => None,
    }
}

/// The assignments of an update, in the order of the fields: each field
/// that is present gives one.
pub open spec fn assignments(updates: TemplateUpdate) -> ClausesModel {
    ClausesModel::none().with("name = ?"@, text_value(updates.name)).with(
        "content = ?"@,
        text_value(updates.content),
    ).with(
        "is_default = ?"@,
        match updates.is_default {
            Some(b) => Some(seq![ValueModel::Integer(flag(b))]),
            None => None,
        },
    )
}

/// Gathers the assignments of an update.
fn update_assignments(updates: &TemplateUpdate) -> (found: Clauses)
    ensures
        found@ == assignments(*updates),
{
    let mut found = Clauses::new();
    if let Some(name) = &updates.name {
        found.add_one("name = ?", SqlValue::Text(name.clone()));
    }
    if let Some(content) = &updates.content {
        found.add_one("content = ?", SqlValue::Text(content.clone()));
    }
    if let Some(is_default) = updates.is_default {
        found.add_one("is_default = ?", SqlValue::Integer(flag_value(is_default)));
    }
    found
}

/// Builds the write that updates the template `id`: the fields that are
/// present are set; an update without a field needs no statement. The
/// other defaults are cleared where the update makes this template the
/// default.
pub fn update_template(id: i64, updates: &TemplateUpdate) -> (write: TemplateWrite)
    ensures
        write.statement is Some <==> assignments(*updates).texts.len() > 0,
        match write.statement {
            Some(statement) => {
                &&& statement@.sql == "UPDATE prompt_templates SET "@ + joined(
                    assignments(*updates).texts,
                    ", "@,
                ) + " WHERE id = ?"@
                &&& statement@.params == assignments(*updates).values.push(ValueModel::Integer(id))
            },
            None => true,
        },
        write.clears_other_defaults == (updates.is_default == Some(true)),
{
    let found = update_assignments(updates);
    let clears = match updates.is_default {
        Some(b) => b,
        None => false,
    };
    if found.texts.len() == 0 {
        return TemplateWrite { statement: None, clears_other_defaults: clears };
    }
    let all = join(&found.texts, ", ");
    let mut sql = concat("UPDATE prompt_templates SET ", all.as_str());
    sql.append(" WHERE id = ?");
    let mut params = found.values;
    bind(&mut params, SqlValue::Integer(id));
    TemplateWrite { statement: Some(Statement { sql, params }), clears_other_defaults: clears }
}

/// The number of templates that a list of recent templates holds where
/// the caller names none.
pub open spec fn default_recent() -> i32 {
    5
}

/// The number of templates that a list of recent templates holds.
pub fn get_recent_templates(limit: Option<i32>) -> (count: i32)
    ensures
        count == (match limit {
            Some(n) => n,
            None => default_recent(),
        }),
{
    match limit {
        Some(n) => n,
        None => 5,
    }
}

} // verus!
