//! A plain model of JSON documents: the values that the protocol logic
//! reads and builds, and the parser that produces them.

use crate::text::str_eq;
use vstd::prelude::*;

verus! {

/// A JSON number. A number that is an integer in the range of `i64` is held
/// by value; any other number is held by its literal text.
#[derive(Debug, Clone, PartialEq, Eq)]
pub enum JsonNumber {
    Integer(i64),
    Literal(String),
}

/// A JSON document held as plain values. The members of an object keep
/// the order in which they were written; a lookup takes the first member
/// with the key.
#[derive(Debug, PartialEq, Eq)]
pub enum Json {
    Null,
    Bool(bool),
    Number(JsonNumber),
    Text(String),
    Array(Vec<Json>),
    Object(Vec<(String, Json)>),
}

/// The mathematical value of a [`JsonNumber`].
pub enum NumberModel {
    Integer(i64),
    Literal(Seq<char>),
}

/// The mathematical value of a [`Json`] document.
pub enum JsonModel {
    Null,
    Bool(bool),
    Number(NumberModel),
    Text(Seq<char>),
    Array(Seq<JsonModel>),
    Object(Seq<(Seq<char>, JsonModel)>),
}

/// The first member of `entries` whose key is `key`, if there is one.
pub open spec fn find_member(entries: Seq<(Seq<char>, JsonModel)>, key: Seq<char>) -> Option<
    JsonModel,
>
    decreases entries.len(),
{
    if entries.len() == 0 {
        None
    } else if entries[0].0 == key {
        Some(entries[0].1)
    } else {
        find_member(entries.drop_first(), key)
    }
}

/// `entries` with the value of the first member named `key` replaced by
/// `value`, or with a new last member where no member has that key.
pub open spec fn put_member(
    entries: Seq<(Seq<char>, JsonModel)>,
    key: Seq<char>,
    value: JsonModel,
) -> Seq<(Seq<char>, JsonModel)>
    decreases entries.len(),
{
    if entries.len() == 0 {
        seq![(key, value)]
    } else if entries[0].0 == key {
        seq![(key, value)] + entries.drop_first()
    } else {
        seq![entries[0]] + put_member(entries.drop_first(), key, value)
    }
}

impl JsonModel {
    /// The member `key` of an object; `None` for a missing member and for
    /// a value that is no object.
    pub open spec fn get(self, key: Seq<char>) -> Option<JsonModel> {
        match self {
            JsonModel::Object(entries) => find_member(entries, key),
            _ => None,
        }
    }

    /// The element `index` of an array; `None` out of range and for a
    /// value that is no array.
    pub open spec fn at(self, index: int) -> Option<JsonModel> {
        match self {
            JsonModel::Array(items) => if 0 <= index < items.len() {
                Some(items[index])
            } else {
                None
            },
            _ => None,
        }
    }

    /// The characters of a string value.
    pub open spec fn text(self) -> Option<Seq<char>> {
        match self {
            JsonModel::Text(s) => Some(s),
            _ => None,
        }
    }

    /// The value of a number that is an integer in the range of `i64`.
    pub open spec fn integer(self) -> Option<i64> {
        match self {
            JsonModel::Number(NumberModel::Integer(n)) => Some(n),
            _ => None,
        }
    }

    pub open spec fn is_array(self) -> bool {
        self is Array
    }
}

/// The member `key` of `node`, where `node` is present and an object that
/// has it.
pub open spec fn child(node: Option<JsonModel>, key: Seq<char>) -> Option<JsonModel> {
    match node {
        Some(value) => value.get(key),
        None => None,
    }
}

/// The element `index` of `node`, where `node` is present and an array
/// that has it.
pub open spec fn element(node: Option<JsonModel>, index: int) -> Option<JsonModel> {
    match node {
        Some(value) => value.at(index),
        None => None,
    }
}

/// The characters of `node`, where `node` is present and a string.
pub open spec fn text_of(node: Option<JsonModel>) -> Option<Seq<char>> {
    match node {
        Some(value) => value.text(),
        None => None,
    }
}

/// The integer of `node`, where `node` is present and an integer number.
pub open spec fn integer_of(node: Option<JsonModel>) -> Option<i64> {
    match node {
        Some(value) => value.integer(),
        None => None,
    }
}

impl View for JsonNumber {
    type V = NumberModel;

    open spec fn view(&self) -> NumberModel {
        match self {
            JsonNumber::Integer(n) => NumberModel::Integer(*n),
            JsonNumber::Literal(s) => NumberModel::Literal(s@),
        }
    }
}

/// The values of the members of an object, in order.
pub open spec fn entries_model(entries: Seq<(String, Json)>) -> Seq<(Seq<char>, JsonModel)> {
    Seq::new(entries.len(), |i: int| (entries[i].0@, entries[i].1@))
}

/// The values of the elements of an array, in order.
pub open spec fn items_model(items: Seq<Json>) -> Seq<JsonModel> {
    Seq::new(items.len(), |i: int| items[i]@)
}

/// The mathematical value of the document `json`.
pub open spec fn json_model(json: Json) -> JsonModel
    decreases json,
{
    match json {
        Json::Null => JsonModel::Null,
        Json::Bool(b) => JsonModel::Bool(b),
        Json::Number(n) => JsonModel::Number(n@),
        Json::Text(s) => JsonModel::Text(s@),
        Json::Array(items) => JsonModel::Array(
            Seq::new(
                items.len() as nat,
                |i: int|
                    if 0 <= i < items.len() {
                        json_model(items[i])
                    } else {
                        JsonModel::Null
                    },
            ),
        ),
        Json::Object(entries) => JsonModel::Object(
            Seq::new(
                entries.len() as nat,
                |i: int|
                    if 0 <= i < entries.len() {
                        (entries[i].0@, json_model(entries[i].1))
                    } else {
                        (Seq::empty(), JsonModel::Null)
                    },
            ),
        ),
    }
}

impl View for Json {
    type V = JsonModel;

    open spec fn view(&self) -> JsonModel {
        json_model(*self)
    }
}

/// The value of an array is the sequence of the values of its elements.
pub proof fn lemma_array_view(items: Vec<Json>)
    ensures
        Json::Array(items)@ == JsonModel::Array(items_model(items@)),
{
    assert(Json::Array(items)@->Array_0 =~= items_model(items@));
}

/// The value of an object is the sequence of its keys and member values.
pub proof fn lemma_object_view(entries: Vec<(String, Json)>)
    ensures
        Json::Object(entries)@ == JsonModel::Object(entries_model(entries@)),
{
    assert(Json::Object(entries)@->Object_0 =~= entries_model(entries@));
}

/// Looking a key up in `entries` from position `from` on gives what looking
/// it up in all of `entries` gives, where no earlier member has the key.
proof fn lemma_find_member_skip(entries: Seq<(Seq<char>, JsonModel)>, key: Seq<char>, from: int)
    requires
        0 <= from <= entries.len(),
        forall|k: int| 0 <= k < from ==> entries[k].0 != key,
    ensures
        find_member(entries, key) == find_member(entries.subrange(from, entries.len() as int), key),
    decreases from,
{
    if from == 0 {
        assert(entries.subrange(0, entries.len() as int) =~= entries);
    } else {
        let rest = entries.drop_first();
        lemma_find_member_skip(rest, key, from - 1);
        assert(rest.subrange(from - 1, rest.len() as int) =~= entries.subrange(
            from,
            entries.len() as int,
        ));
    }
}

/// Putting a member whose key first occurs at `at` replaces that member.
proof fn lemma_put_member_found(
    entries: Seq<(Seq<char>, JsonModel)>,
    key: Seq<char>,
    value: JsonModel,
    at: int,
)
    requires
        0 <= at < entries.len(),
        entries[at].0 == key,
        forall|k: int| 0 <= k < at ==> entries[k].0 != key,
    ensures
        put_member(entries, key, value) == entries.update(at, (key, value)),
    decreases at,
{
    if at > 0 {
        let rest = entries.drop_first();
        lemma_put_member_found(rest, key, value, at - 1);
    }
}

/// Putting a member whose key does not occur appends it.
proof fn lemma_put_member_missing(
    entries: Seq<(Seq<char>, JsonModel)>,
    key: Seq<char>,
    value: JsonModel,
)
    requires
        forall|k: int| 0 <= k < entries.len() ==> entries[k].0 != key,
    ensures
        put_member(entries, key, value) == entries.push((key, value)),
    decreases entries.len(),
{
    if entries.len() > 0 {
        let rest = entries.drop_first();
        lemma_put_member_missing(rest, key, value);
    }
}

/// The position of the first member of `entries` with the key `key`.
fn position(entries: &Vec<(String, Json)>, key: &str) -> (found: Option<usize>)
    ensures
        match found {
            Some(at) => {
                &&& at < entries.len()
                &&& entries[at as int].0@ == key@
                &&& forall|k: int| 0 <= k < at ==> entries[k].0@ != key@
            },
            None => forall|k: int| 0 <= k < entries.len() ==> entries[k].0@ != key@,
        },
{
    let mut i: usize = 0;
    while i < entries.len()
        invariant
            i <= entries.len(),
            forall|k: int| 0 <= k < i ==> entries[k].0@ != key@,
        decreases entries.len() - i,
    {
        if str_eq(entries[i].0.as_str(), key) {
            return Some(i);
        }
        i += 1;
    }
    None
}

/// Sets the member `key` of an object held as `entries` to `value`: the
/// first member with that key gets the value, or a new member is
/// appended.
pub fn put(entries: &mut Vec<(String, Json)>, key: String, value: Json)
    ensures
        entries_model(final(entries)@) == put_member(entries_model(old(entries)@), key@, value@),
{
    let ghost before = entries_model(entries@);
    match position(entries, key.as_str()) {
        Some(at) => {
            proof {
                lemma_put_member_found(before, key@, value@, at as int);
            }
            entries.set(at, (key, value));
        },
        None => {
            proof {
                lemma_put_member_missing(before, key@, value@);
            }
            entries.push((key, value));
        },
    }
}

impl Json {
    /// A string value holding the characters of `s`.
    pub fn text(s: &str) -> (json: Json)
        ensures
            json@ == JsonModel::Text(s@),
    {
        Json::Text(String::from_str(s))
    }

    /// An integer number.
    pub fn integer(n: i64) -> (json: Json)
        ensures
            json@ == JsonModel::Number(NumberModel::Integer(n)),
    {
        Json::Number(JsonNumber::Integer(n))
    }

    /// The member `key` of an object.
    pub fn get(&self, key: &str) -> (member: Option<&Json>)
        ensures
            match member {
                Some(value) => self@.get(key@) == Some(value@),
                None => self@.get(key@) is None,
            },
    {
        match self {
            Json::Object(entries) => {
                proof {
                    lemma_object_view(*entries);
                }
                let ghost model = entries_model(entries@);
                match position(entries, key) {
                    Some(at) => {
                        proof {
                            lemma_find_member_skip(model, key@, at as int);
                        }
                        Some(&entries[at].1)
                    },
                    None => {
                        proof {
                            lemma_find_member_skip(model, key@, model.len() as int);
                        }
                        None
                    },
                }
            },
            _ => None,
        }
    }

    /// The element `index` of an array.
    pub fn at(&self, index: usize) -> (item: Option<&Json>)
        ensures
            match item {
                Some(value) => self@.at(index as int) == Some(value@),
                None => self@.at(index as int) is None,
            },
    {
        match self {
            Json::Array(items) => {
                if index < items.len() {
                    Some(&items[index])
                } else {
                    None
                }
            },
            _ => None,
        }
    }

    /// The characters of a string value.
    pub fn as_text(&self) -> (text: Option<&str>)
        ensures
            match text {
                Some(s) => self@.text() == Some(s@),
                None => self@.text() is None,
            },
    {
        match self {
            Json::Text(s) => Some(s.as_str()),
            _ => None,
        }
    }

    /// The value of an integer number.
    pub fn as_integer(&self) -> (n: Option<i64>)
        ensures
            n == self@.integer(),
    {
        match self {
            Json::Number(JsonNumber::Integer(n)) => Some(*n),
            _ => None,
        }
    }

    /// Whether the value is an array.
    pub fn is_array(&self) -> (b: bool)
        ensures
            b == self@.is_array(),
    {
        match self {
            Json::Array(_) => true,
            _ => false,
        }
    }

    /// A copy of the document.
    pub fn duplicate(&self) -> (copy: Json)
        ensures
            copy@ == self@,
        decreases self,
    {
        match self {
            Json::Null => Json::Null,
            Json::Bool(b) => Json::Bool(*b),
            Json::Number(JsonNumber::Integer(n)) => Json::Number(JsonNumber::Integer(*n)),
            Json::Number(JsonNumber::Literal(s)) => Json::Number(JsonNumber::Literal(s.clone())),
            Json::Text(s) => Json::Text(s.clone()),
            Json::Array(items) => {
                let mut out: Vec<Json> = Vec::new();
                let mut i: usize = 0;
                while i < items.len()
                    invariant
                        *self == Json::Array(*items),
                        i <= items.len(),
                        out.len() == i,
                        forall|k: int| 0 <= k < i ==> out[k]@ == items[k]@,
                    decreases items.len() - i,
                {
                    assert(decreases_to!(*self => self->Array_0));
                    let item = items[i].duplicate();
                    out.push(item);
                    i += 1;
                }
                proof {
                    lemma_array_view(out);
                    lemma_array_view(*items);
                    assert(items_model(out@) =~= items_model(items@));
                }
                Json::Array(out)
            },
            Json::Object(entries) => {
                let mut out: Vec<(String, Json)> = Vec::new();
                let mut i: usize = 0;
                while i < entries.len()
                    invariant
                        *self == Json::Object(*entries),
                        i <= entries.len(),
                        out.len() == i,
                        forall|k: int|
                            0 <= k < i ==> out[k].0@ == entries[k].0@ && out[k].1@ == entries[k].1@,
                    decreases entries.len() - i,
                {
                    assert(decreases_to!(*self => self->Object_0));
                    let value = entries[i].1.duplicate();
                    out.push((entries[i].0.clone(), value));
                    i += 1;
                }
                proof {
                    lemma_object_view(out);
                    lemma_object_view(*entries);
                    assert(entries_model(out@) =~= entries_model(entries@));
                }
                Json::Object(out)
            },
        }
    }
}

/// The member `key` of `node`.
pub fn child_of<'a>(node: Option<&'a Json>, key: &str) -> (member: Option<&'a Json>)
    ensures
        match member {
            Some(value) => child(node_model(node), key@) == Some(value@),
            None => child(node_model(node), key@) is None,
        },
{
    match node {
        Some(value) => value.get(key),
        None => None,
    }
}

/// The element `index` of `node`.
pub fn element_of<'a>(node: Option<&'a Json>, index: usize) -> (item: Option<&'a Json>)
    ensures
        match item {
            Some(value) => element(node_model(node), index as int) == Some(value@),
            None => element(node_model(node), index as int) is None,
        },
{
    match node {
        Some(value) => value.at(index),
        None => None,
    }
}

/// The value of an optional node.
pub open spec fn node_model(node: Option<&Json>) -> Option<JsonModel> {
    match node {
        Some(value) => Some(value@),
        None => None,
    }
}

/// The member that gives `key` the value `value`.
pub fn member(key: &str, value: Json) -> (entry: (String, Json))
    ensures
        entry.0@ == key@,
        entry.1@ == value@,
{
    (String::from_str(key), value)
}

/// The object with the members `entries`.
pub fn object_of(entries: Vec<(String, Json)>) -> (json: Json)
    ensures
        json@ == JsonModel::Object(entries_model(entries@)),
{
    proof {
        lemma_object_view(entries);
    }
    Json::Object(entries)
}

/// The array with the elements `items`.
pub fn array_of(items: Vec<Json>) -> (json: Json)
    ensures
        json@ == JsonModel::Array(items_model(items@)),
{
    proof {
        lemma_array_view(items);
    }
    Json::Array(items)
}

/// The object whose one member gives `key` the value `value`.
pub fn object_1(key: &str, value: Json) -> (json: Json)
    ensures
        json@ == JsonModel::Object(seq![(key@, value@)]),
{
    let mut entries: Vec<(String, Json)> = Vec::new();
    entries.push(member(key, value));
    assert(entries_model(entries@) =~= seq![(key@, value@)]);
    object_of(entries)
}

/// The object with the two members given, in that order.
pub fn object_2(key_a: &str, value_a: Json, key_b: &str, value_b: Json) -> (json: Json)
    ensures
        json@ == JsonModel::Object(seq![(key_a@, value_a@), (key_b@, value_b@)]),
{
    let mut entries: Vec<(String, Json)> = Vec::new();
    entries.push(member(key_a, value_a));
    entries.push(member(key_b, value_b));
    assert(entries_model(entries@) =~= seq![(key_a@, value_a@), (key_b@, value_b@)]);
    object_of(entries)
}

/// The array with the one element `item`.
pub fn array_1(item: Json) -> (json: Json)
    ensures
        json@ == JsonModel::Array(seq![item@]),
{
    let mut items: Vec<Json> = Vec::new();
    items.push(item);
    assert(items_model(items@) =~= seq![item@]);
    array_of(items)
}

/// The array with the two elements given, in that order.
pub fn array_2(first: Json, second: Json) -> (json: Json)
    ensures
        json@ == JsonModel::Array(seq![first@, second@]),
{
    let mut items: Vec<Json> = Vec::new();
    items.push(first);
    items.push(second);
    assert(items_model(items@) =~= seq![first@, second@]);
    array_of(items)
}

/// `entries` with each member of `extra` put in turn: a member of `extra`
/// replaces the value of a member with its key, or joins as a new member.
pub open spec fn merge_members(
    entries: Seq<(Seq<char>, JsonModel)>,
    extra: Seq<(Seq<char>, JsonModel)>,
) -> Seq<(Seq<char>, JsonModel)>
    decreases extra.len(),
{
    if extra.len() == 0 {
        entries
    } else {
        put_member(merge_members(entries, extra.drop_last()), extra.last().0, extra.last().1)
    }
}

/// Puts each member of `extra` into `entries`, in order.
pub fn merge(entries: &mut Vec<(String, Json)>, extra: &Vec<(String, Json)>)
    ensures
        entries_model(final(entries)@) == merge_members(
            entries_model(old(entries)@),
            entries_model(extra@),
        ),
{
    let ghost before = entries_model(entries@);
    let ghost all = entries_model(extra@);
    let mut i: usize = 0;
    while i < extra.len()
        invariant
            i <= extra.len(),
            all == entries_model(extra@),
            entries_model(entries@) == merge_members(before, all.take(i as int)),
        decreases extra.len() - i,
    {
        let value = extra[i].1.duplicate();
        put(entries, extra[i].0.clone(), value);
        assert(all.take(i + 1).drop_last() =~= all.take(i as int));
        i += 1;
    }
    assert(all.take(extra.len() as int) =~= all);
}

/// `serde_json::Value`, the parser's own document type.
#[verifier::external_type_specification]
#[verifier::external_body]
pub struct ExValue(serde_json::Value);

/// What `serde_json::from_slice` makes of `text`: the document's value, or
/// the text of the parser's error.
pub uninterp spec fn json_document(text: Seq<u8>) -> Result<JsonModel, Seq<char>>;

/// Moves a `serde_json::Value` into a [`Json`], variant by variant. A
/// number goes by `Number::as_i64` where that gives a value, else by its
/// display text; the members of an object come in the order in which
/// `serde_json::Map` hands them out.
#[verifier::external_body]
fn json_from_value(value: serde_json::Value) -> Json {
    match value {
        serde_json::Value::Null => Json::Null,
        serde_json::Value::Bool(b) => Json::Bool(b),
        serde_json::Value::Number(n) => match n.as_i64() {
            Some(i) => Json::Number(JsonNumber::Integer(i)),
            None => Json::Number(JsonNumber::Literal(n.to_string())),
        },
        serde_json::Value::String(s) => Json::Text(s),
        serde_json::Value::Array(a) => Json::Array(a.into_iter().map(json_from_value).collect()),
        serde_json::Value::Object(m) => Json::Object(
            m.into_iter().map(|(k, v)| (k, json_from_value(v))).collect(),
        ),
    }
}

/// Parses `text` with `serde_json::from_slice`. The result is a function of
/// the bytes alone; the contract gives it the name [`json_document`] and
/// claims nothing else of it.
#[verifier::external_body]
pub(crate) fn parse_json(text: &[u8]) -> (parsed: Result<Json, String>)
    ensures
        match parsed {
            Ok(doc) => json_document(text@) == Ok::<JsonModel, Seq<char>>(doc@),
            Err(e) => json_document(text@) == Err::<JsonModel, Seq<char>>(e@),
        },
{
    match serde_json::from_slice::<serde_json::Value>(text) {
        Ok(value) => Ok(json_from_value(value)),
        Err(e) => Err(e.to_string()),
    }
}

/// The value of a parse: the document, or the parser's message.
pub open spec fn parsed_model(parsed: Result<Json, String>) -> Result<JsonModel, Seq<char>> {
    match parsed {
        Ok(doc) => Ok(doc@),
        Err(e) => Err(e@),
    }
}

/// Reads a JSON document from its text.
pub fn parse(text: &[u8]) -> (parsed: Result<Json, String>)
    ensures
        parsed_model(parsed) == json_document(text@),
{
    parse_json(text)
}

} // verus!
