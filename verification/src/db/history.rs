//! Recognition history: the stored records and the queries for them.

use crate::db::statement::{
    bind, copy_values, join, joined, values_model, Clauses, ClausesModel, SqlValue, Statement,
    ValueModel,
};
use crate::text::concat;
use vstd::prelude::*;
use vstd::string::*;

verus! {

/// A stored recognition.
#[derive(Debug, Clone, PartialEq, Eq)]
pub struct HistoryRecord {
    pub id: i64,
    pub config_id: i64,
    pub config_name: String,
    pub image_path: Option<String>,
    pub image_thumbnail: Option<String>,
    pub prompt: String,
    pub result: String,
    pub tokens_used: Option<i32>,
    pub duration_ms: Option<i32>,
    pub created_at: String,
}

/// A recognition to store.
#[derive(Debug, Clone, PartialEq, Eq)]
pub struct HistoryInput {
    pub config_id: i64,
    pub config_name: String,
    pub image_thumbnail: Option<String>,
    pub prompt: String,
    pub result: String,
    pub tokens_used: Option<i32>,
    pub duration_ms: Option<i32>,
}

/// What a query for history records asks for; an absent field asks for
/// nothing.
#[derive(Debug, Clone, PartialEq, Eq)]
pub struct HistoryQueryParams {
    pub page: Option<i32>,
    pub page_size: Option<i32>,
    pub config_id: Option<i64>,
    pub keyword: Option<String>,
    pub start_date: Option<String>,
    pub end_date: Option<String>,
}

impl Default for HistoryQueryParams {
    fn default() -> (params: HistoryQueryParams)
        ensures
            params.page is None,
            params.page_size is None,
            params.config_id is None,
            params.keyword is None,
            params.start_date is None,
            params.end_date is None,
    {
        HistoryQueryParams {
            page: None,
            page_size: None,
            config_id: None,
            keyword: None,
            start_date: None,
            end_date: None,
        }
    }
}

/// One page of history records, and the number of all records that the
/// query matches.
#[derive(Debug, Clone, PartialEq, Eq)]
pub struct HistoryPaginatedResult {
    pub records: Vec<HistoryRecord>,
    pub total: i64,
    pub page: i32,
    pub page_size: i32,
}

/// The record that a row of the history table holds.
pub fn row_to_record(
    id: i64,
    config_id: i64,
    config_name: String,
    image_path: Option<String>,
    image_thumbnail: Option<String>,
    prompt: String,
    result: String,
    tokens_used: Option<i32>,
    duration_ms: Option<i32>,
    created_at: String,
) -> (record: HistoryRecord)
    ensures
        record == (HistoryRecord {
            id,
            config_id,
            config_name,
            image_path,
            image_thumbnail,
            prompt,
            result,
            tokens_used,
            duration_ms,
            created_at,
        }),
{
    HistoryRecord {
        id,
        config_id,
        config_name,
        image_path,
        image_thumbnail,
        prompt,
        result,
        tokens_used,
        duration_ms,
        created_at,
    }
}

/// The page that a query asks for; the first where it names none.
pub open spec fn page_of(params: HistoryQueryParams) -> i32 {
    match params.page {
        Some(page) => page,
        None => 1,
    }
}

/// The number of records on a page; twenty where the query names none.
pub open spec fn page_size_of(params: HistoryQueryParams) -> i32 {
    match params.page_size {
        Some(size) => size,
        None => 20,
    }
}

/// The number of records before the page, in 32 bits as the store counts.
pub open spec fn offset_of(params: HistoryQueryParams) -> i32 {
    page_of(params).wrapping_sub(1).wrapping_mul(page_size_of(params))
}

/// The pattern that finds `keyword` anywhere in a text.
pub open spec fn like_pattern(keyword: Seq<char>) -> Seq<char> {
    "%"@ + keyword + "%"@
}

/// The bound values of an optional text.
pub open spec fn one_text(value: Option<String>) -> Option<Seq<ValueModel>> {
    match value {
        Some(text) => Some(seq![ValueModel::Text(text@)]),
        None => None,
    }
}

/// The conditions of a query with the values bound to them, in the order
/// of the fields: each field that is present gives one condition. The
/// keyword is bound twice, as a pattern.
pub open spec fn conditions(params: HistoryQueryParams) -> ClausesModel {
    ClausesModel::none().with(
        "config_id = ?"@,
        match params.config_id {
            Some(id) => Some(seq![ValueModel::Integer(id)]),
            None => None,
        },
    ).with(
        "(prompt LIKE ? OR result LIKE ?)"@,
        match params.keyword {
            Some(keyword) => Some(
                seq![
                    ValueModel::Text(like_pattern(keyword@)),
                    ValueModel::Text(like_pattern(keyword@)),
                ],
            ),
            None => None,
        },
    ).with("created_at >= ?"@, one_text(params.start_date)).with(
        "created_at <= ?"@,
        one_text(params.end_date),
    )
}

/// The `WHERE` clause of a query: empty for no condition, else the
/// conditions joined by `AND`.
pub open spec fn where_clause(params: HistoryQueryParams) -> Seq<char> {
    if conditions(params).texts.len() == 0 {
        Seq::empty()
    } else {
        "WHERE "@ + joined(conditions(params).texts, " AND "@)
    }
}

/// The statement that counts the records that a query matches.
pub open spec fn count_sql(params: HistoryQueryParams) -> Seq<char> {
    "SELECT COUNT(*) FROM recognition_history "@ + where_clause(params)
}

/// The statement that reads one page of the records that a query matches,
/// newest first.
pub open spec fn select_sql(params: HistoryQueryParams) -> Seq<char> {
    "SELECT id, config_id, config_name, image_path, image_thumbnail, prompt, result, tokens_used, duration_ms, created_at FROM recognition_history "@
        + where_clause(params) + " ORDER BY created_at DESC LIMIT ? OFFSET ?"@
}

/// The two statements of a query for history records, and the page that
/// they read.
pub struct HistoryQuery {
    pub count: Statement,
    pub select: Statement,
    pub page: i32,
    pub page_size: i32,
}

/// Gathers the conditions of a query.
fn query_conditions(params: &HistoryQueryParams) -> (found: Clauses)
    ensures
        found@ == conditions(*params),
{
    let mut found = Clauses::new();
    if let Some(config_id) = params.config_id {
        found.add_one("config_id = ?", SqlValue::Integer(config_id));
    }
    if let Some(keyword) = &params.keyword {
        let mut pattern = concat("%", keyword.as_str());
        pattern.append("%");
        found.add_two(
            "(prompt LIKE ? OR result LIKE ?)",
            SqlValue::Text(pattern.clone()),
            SqlValue::Text(pattern),
        );
    }
    if let Some(date) = &params.start_date {
        found.add_one("created_at >= ?", SqlValue::Text(date.clone()));
    }
    if let Some(date) = &params.end_date {
        found.add_one("created_at <= ?", SqlValue::Text(date.clone()));
    }
    found
}

/// Builds the statements of a query for history records: one that counts
/// all matches, and one that reads the page asked for.
pub fn get_history_records(params: &HistoryQueryParams) -> (query: HistoryQuery)
    ensures
        query.page == page_of(*params),
        query.page_size == page_size_of(*params),
        query.count@.sql == count_sql(*params),
        query.count@.params == conditions(*params).values,
        query.select@.sql == select_sql(*params),
        query.select@.params == conditions(*params).values + seq![
            ValueModel::Integer(page_size_of(*params) as i64),
            ValueModel::Integer(offset_of(*params) as i64),
        ],
{
    let page: i32 = match params.page {
        Some(page) => page,
        None => 1,
    };
    let page_size: i32 = match params.page_size {
        Some(size) => size,
        None => 20,
    };
    let offset: i32 = page.wrapping_sub(1).wrapping_mul(page_size);
    let found = query_conditions(params);
    let where_sql = if found.texts.len() == 0 {
        String::new()
    } else {
        let all = join(&found.texts, " AND ");
        concat("WHERE ", all.as_str())
    };
    let count = concat("SELECT COUNT(*) FROM recognition_history ", where_sql.as_str());
    let mut select = concat(
        "SELECT id, config_id, config_name, image_path, image_thumbnail, prompt, result, tokens_used, duration_ms, created_at FROM recognition_history ",
        where_sql.as_str(),
    );
    select.append(" ORDER BY created_at DESC LIMIT ? OFFSET ?");
    let mut paged = copy_values(&found.values);
    bind(&mut paged, SqlValue::Integer(page_size as i64));
    bind(&mut paged, SqlValue::Integer(offset as i64));
    HistoryQuery {
        count: Statement { sql: count, params: found.values },
        select: Statement { sql: select, params: paged },
        page,
        page_size,
    }
}

/// The number of records that an export reads at once.
pub open spec fn export_page_size() -> i32 {
    10000
}

/// Builds the statements of an export: the query as it is, read as one
/// page of ten thousand records.
pub fn export_history(params: HistoryQueryParams) -> (query: HistoryQuery)
    ensures
        query.page == 1,
        query.page_size == export_page_size(),
        query.select@.params == conditions(params).values + seq![
            ValueModel::Integer(10000),
            ValueModel::Integer(0),
        ],
        query.select@.sql == select_sql(params),
{
    let mut full = params;
    full.page = Some(1);
    full.page_size = Some(10000);
    proof {
        assert(conditions(full) == conditions(params));
    }
    get_history_records(&full)
}

/// The placeholders of `count` values: a question mark for each, joined by
/// commas.
pub open spec fn placeholders(count: nat) -> Seq<char>
    decreases count,
{
    if count == 0 {
        Seq::empty()
    } else if count == 1 {
        "?"@
    } else {
        placeholders((count - 1) as nat) + ", "@ + "?"@
    }
}

/// The ids as bound values, in order.
pub open spec fn id_values(ids: Seq<i64>) -> Seq<ValueModel> {
    Seq::new(ids.len(), |i: int| ValueModel::Integer(ids[i]))
}

/// Builds the statement that deletes the records with the ids `ids`; none
/// is needed for no ids.
pub fn delete_history_records(ids: &[i64]) -> (statement: Option<Statement>)
    ensures
        statement is Some <==> ids@.len() > 0,
        match statement {
            Some(delete) => {
                &&& delete@.sql == "DELETE FROM recognition_history WHERE id IN ("@ + placeholders(
                    ids@.len(),
                ) + ")"@
                &&& delete@.params == id_values(ids@)
            },
            None => true,
        },
{
    if ids.len() == 0 {
        return None;
    }
    let mut marks = String::new();
    let mut params: Vec<SqlValue> = Vec::new();
    let mut i: usize = 0;
    while i < ids.len()
        invariant
            i <= ids@.len(),
            marks@ == placeholders(i as nat),
            values_model(params@) == id_values(ids@.take(i as int)),
        decreases ids@.len() - i,
    {
        if i > 0 {
            marks.append(", ");
        }
        marks.append("?");
        bind(&mut params, SqlValue::Integer(ids[i]));
        i += 1;
    }
    let mut sql = concat("DELETE FROM recognition_history WHERE id IN (", marks.as_str());
    sql.append(")");
    Some(Statement { sql, params })
}

} // verus!
