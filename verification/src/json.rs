//! JSON documents as this library reads them: a tree of plain values, parsed
//! by `serde_json`.

use serde_json::Value;
use vstd::prelude::*;
use vstd::string::*;

verus! {

/// `serde_json::Value`, carried between the parser and the conversion below.
#[verifier::external_type_specification]
#[verifier::external_body]
pub struct ExValue(serde_json::Value);

/// `serde_json::Error`, the parser's account of a text that is no JSON.
#[verifier::external_type_specification]
#[verifier::external_body]
pub struct ExError(serde_json::Error);

/// A JSON document. A number's value is not kept: nothing here reads one.
#[derive(Debug)]
pub enum Json {
    Null,
    Bool(bool),
    Number,
    Text(String),
    List(Vec<Json>),
    Record(Vec<(String, Json)>),
}

/// The mathematical content of a [`Json`].
pub enum JsonModel {
    Null,
    Bool(bool),
    Number,
    Text(Seq<char>),
    List(Seq<JsonModel>),
    Record(Seq<(Seq<char>, JsonModel)>),
}

impl Json {
    /// The document as a mathematical value.
    pub open spec fn model(self) -> JsonModel
        decreases self,
    {
        match self {
            Json::Null => JsonModel::Null,
            Json::Bool(b) => JsonModel::Bool(b),
            Json::Number => JsonModel::Number,
            Json::Text(s) => JsonModel::Text(s@),
            Json::List(items) => JsonModel::List(
                Seq::new(
                    items@.len(),
                    |i: int|
                        if 0 <= i < items@.len() {
                            items@[i].model()
                        } else {
                            JsonModel::Null
                        },
                ),
            ),
            Json::Record(fields) => JsonModel::Record(
                Seq::new(
                    fields@.len(),
                    |i: int|
                        if 0 <= i < fields@.len() {
                            (fields@[i].0@, fields@[i].1.model())
                        } else {
                            (Seq::empty(), JsonModel::Null)
                        },
                ),
            ),
        }
    }
}

/// What `serde_json` reads in `text`: the document, or `None` where `text`
/// is not JSON.
pub uninterp spec fn json_text_value(text: Seq<char>) -> Option<JsonModel>;

/// What a `serde_json::Value` holds, a number's value left out.
pub uninterp spec fn json_value_model(value: Value) -> JsonModel;

/// How `serde_json` writes `text` as a JSON string: quoted and escaped.
pub uninterp spec fn json_string_text(text: Seq<char>) -> Seq<char>;

/// Calls `serde_json::from_str` for a `Value`. The parser reads the text
/// alone, so its outcome is the same for the same text: an error exactly
/// where `json_text_value` is `None`, and otherwise the document it names.
#[verifier::external_body]
fn parse_value(raw: &str) -> (r: Result<Value, serde_json::Error>)
    ensures
        match r {
            Ok(value) => json_text_value(raw@) == Some(json_value_model(value)),
            Err(_) => json_text_value(raw@) is None,
        },
{
    serde_json::from_str::<Value>(raw)
}

/// Copies a `serde_json::Value` into a [`Json`], variant by variant, members
/// of an object in the order in which `serde_json` walks them.
#[verifier::external_body]
fn json_from_value(value: &Value) -> (json: Json)
    ensures
        json.model() == json_value_model(*value),
{
    match value {
        Value::Null => Json::Null,
        Value::Bool(b) => Json::Bool(*b),
        Value::Number(_) => Json::Number,
        Value::String(s) => Json::Text(s.clone()),
        Value::Array(items) => Json::List(items.iter().map(json_from_value).collect()),
        Value::Object(fields) => Json::Record(
            fields.iter().map(|(k, v)| (k.clone(), json_from_value(v))).collect(),
        ),
    }
}

/// Calls `serde_json::to_string` on a string. Writing a string into memory
/// has no way to fail, so the result is always `Ok`, and it is the text that
/// `json_string_text` names.
#[verifier::external_body]
fn quote_text(text: &str) -> (r: Result<String, serde_json::Error>)
    ensures
        r is Ok,
        r->Ok_0@ == json_string_text(text@),
{
    serde_json::to_string(text)
}

/// Parses `raw` as JSON.
pub fn parse_json(raw: &str) -> (r: Option<Json>)
    ensures
        match r {
            Some(json) => json_text_value(raw@) == Some(json.model()),
            None => json_text_value(raw@) is None,
        },
{
    match parse_value(raw) {
        Ok(value) => Some(json_from_value(&value)),
        Err(_) => None,
    }
}

/// Writes `text` as a JSON string.
pub fn quote(text: &str) -> (quoted: String)
    ensures
        quoted@ == json_string_text(text@),
{
    match quote_text(text) {
        Ok(quoted) => quoted,
        Err(_) => String::new(),
    }
}

/// The value of the first member of `fields` named `key`, looking from
/// position `from` on.
pub open spec fn member_from(
    fields: Seq<(Seq<char>, JsonModel)>,
    key: Seq<char>,
    from: int,
) -> Option<JsonModel>
    decreases fields.len() - from,
{
    if from < 0 || from >= fields.len() {
        None
    } else if fields[from].0 == key {
        Some(fields[from].1)
    } else {
        member_from(fields, key, from + 1)
    }
}

/// The value of the first member of `fields` named `key`.
pub open spec fn member(fields: Seq<(Seq<char>, JsonModel)>, key: Seq<char>) -> Option<
    JsonModel,
> {
    member_from(fields, key, 0)
}

impl Json {
    /// The member named `key`, where this document is an object that has one.
    pub fn get<'a>(&'a self, key: &str) -> (r: Option<&'a Json>)
        ensures
            match r {
                Some(found) => self.model() matches JsonModel::Record(fields) && member(
                    fields,
                    key@,
                ) == Some(found.model()),
                None => self.model() matches JsonModel::Record(fields) ==> member(fields, key@)
                    is None,
            },
    {
        match self {
            Json::Record(fields) => {
                let wanted = String::from_str(key);
                let ghost model = self.model()->Record_0;
                let mut i: usize = 0;
                while i < fields.len()
                    invariant
                        i <= fields.len(),
                        wanted@ == key@,
                        self.model() == JsonModel::Record(model),
                        *self == Json::Record(*fields),
                        member_from(model, key@, i as int) == member(model, key@),
                    decreases fields.len() - i,
                {
                    if fields[i].0 == wanted {
                        return Some(&fields[i].1);
                    }
                    i = i + 1;
                }
                None
            },
            _ => None,
        }
    }
}

} // verus!
