//! SQL statements as the store runs them: the text, and the values bound
//! to its placeholders in order.

use vstd::prelude::*;
use vstd::string::*;

verus! {

/// A value bound to a placeholder.
#[derive(Debug, Clone, PartialEq, Eq)]
pub enum SqlValue {
    Integer(i64),
    Text(String),
}

/// The mathematical value of a [`SqlValue`].
pub enum ValueModel {
    Integer(i64),
    Text(Seq<char>),
}

impl View for SqlValue {
    type V = ValueModel;

    open spec fn view(&self) -> ValueModel {
        match self {
            SqlValue::Integer(n) => ValueModel::Integer(*n),
            SqlValue::Text(s) => ValueModel::Text(s@),
        }
    }
}

/// A statement with its bound values.
#[derive(Debug, Clone, PartialEq, Eq)]
pub struct Statement {
    pub sql: String,
    pub params: Vec<SqlValue>,
}

/// The mathematical value of a [`Statement`].
pub struct StatementModel {
    pub sql: Seq<char>,
    pub params: Seq<ValueModel>,
}

/// The values of bound values, in order.
pub open spec fn values_model(params: Seq<SqlValue>) -> Seq<ValueModel> {
    Seq::new(params.len(), |i: int| params[i]@)
}

impl View for Statement {
    type V = StatementModel;

    open spec fn view(&self) -> StatementModel {
        StatementModel { sql: self.sql@, params: values_model(self.params@) }
    }
}

/// The number that the store keeps for a mark: one for set, zero for not.
pub open spec fn flag(b: bool) -> i64 {
    if b {
        1
    } else {
        0
    }
}

/// The number that the store keeps for a mark.
pub fn flag_value(b: bool) -> (n: i64)
    ensures
        n == flag(b),
{
    if b {
        1
    } else {
        0
    }
}

/// `parts` one after the other, with `separator` between each two.
pub open spec fn joined(parts: Seq<Seq<char>>, separator: Seq<char>) -> Seq<char>
    decreases parts.len(),
{
    if parts.len() == 0 {
        Seq::empty()
    } else if parts.len() == 1 {
        parts[0]
    } else {
        joined(parts.drop_last(), separator) + separator + parts.last()
    }
}

/// The characters of each of `parts`.
pub open spec fn parts_model(parts: Seq<&str>) -> Seq<Seq<char>> {
    Seq::new(parts.len(), |i: int| parts[i]@)
}

/// Joins `parts` with `separator` between each two.
pub fn join(parts: &Vec<&str>, separator: &str) -> (text: String)
    ensures
        text@ == joined(parts_model(parts@), separator@),
{
    let mut text = String::new();
    let ghost all = parts_model(parts@);
    let mut i: usize = 0;
    while i < parts.len()
        invariant
            i <= parts.len(),
            all == parts_model(parts@),
            text@ == joined(all.take(i as int), separator@),
        decreases parts.len() - i,
    {
        if i > 0 {
            text.append(separator);
        }
        text.append(parts[i]);
        proof {
            let before = all.take(i as int);
            let now = all.take(i + 1);
            assert(now.drop_last() =~= before);
        }
        i += 1;
    }
    assert(all.take(parts.len() as int) =~= all);
    text
}

/// The bound values `params` followed by `value`.
pub fn bind(params: &mut Vec<SqlValue>, value: SqlValue)
    ensures
        values_model(final(params)@) == values_model(old(params)@).push(value@),
{
    params.push(value);
}

/// A copy of the bound values.
pub fn copy_values(params: &Vec<SqlValue>) -> (copy: Vec<SqlValue>)
    ensures
        values_model(copy@) == values_model(params@),
{
    let mut copy: Vec<SqlValue> = Vec::new();
    let mut i: usize = 0;
    while i < params.len()
        invariant
            i <= params.len(),
            copy.len() == i,
            forall|k: int| 0 <= k < i ==> copy[k]@ == params[k]@,
        decreases params.len() - i,
    {
        let value = match &params[i] {
            SqlValue::Integer(n) => SqlValue::Integer(*n),
            SqlValue::Text(s) => SqlValue::Text(s.clone()),
        };
        copy.push(value);
        i += 1;
    }
    copy
}

/// Clauses with placeholders, and the values bound to them in order.
pub struct Clauses {
    pub texts: Vec<&'static str>,
    pub values: Vec<SqlValue>,
}

/// The mathematical value of [`Clauses`].
pub struct ClausesModel {
    pub texts: Seq<Seq<char>>,
    pub values: Seq<ValueModel>,
}

impl ClausesModel {
    /// No clause.
    pub open spec fn none() -> ClausesModel {
        ClausesModel { texts: Seq::empty(), values: Seq::empty() }
    }

    /// The clauses followed by the clause `text` with the values `bound`,
    /// where `bound` is present; the clauses as they are where it is not.
    pub open spec fn with(self, text: Seq<char>, bound: Option<Seq<ValueModel>>) -> ClausesModel {
        match bound {
            Some(values) => ClausesModel {
                texts: self.texts.push(text),
                values: self.values + values,
            },
            None => self,
        }
    }
}

impl View for Clauses {
    type V = ClausesModel;

    open spec fn view(&self) -> ClausesModel {
        ClausesModel { texts: parts_model(self.texts@), values: values_model(self.values@) }
    }
}

impl Clauses {
    /// No clause.
    pub fn new() -> (clauses: Clauses)
        ensures
            clauses@ == ClausesModel::none(),
    {
        let clauses = Clauses { texts: Vec::new(), values: Vec::new() };
        assert(clauses@.texts =~= Seq::<Seq<char>>::empty());
        assert(clauses@.values =~= Seq::<ValueModel>::empty());
        clauses
    }

    /// Adds a clause without a placeholder.
    pub fn add(&mut self, text: &'static str)
        ensures
            final(self)@ == old(self)@.with(text@, Some(Seq::empty())),
    {
        self.texts.push(text);
        assert(final(self)@.texts =~= old(self)@.texts.push(text@));
    }

    /// Adds a clause with one placeholder, and the value bound to it.
    pub fn add_one(&mut self, text: &'static str, value: SqlValue)
        ensures
            final(self)@ == old(self)@.with(text@, Some(seq![value@])),
    {
        self.texts.push(text);
        self.values.push(value);
        assert(final(self)@.texts =~= old(self)@.texts.push(text@));
        assert(final(self)@.values =~= old(self)@.values + seq![value@]);
    }

    /// Adds a clause with two placeholders, and the values bound to them.
    pub fn add_two(&mut self, text: &'static str, first: SqlValue, second: SqlValue)
        ensures
            final(self)@ == old(self)@.with(text@, Some(seq![first@, second@])),
    {
        self.texts.push(text);
        self.values.push(first);
        self.values.push(second);
        assert(final(self)@.texts =~= old(self)@.texts.push(text@));
        assert(final(self)@.values =~= old(self)@.values + seq![first@, second@]);
    }
}

} // verus!
