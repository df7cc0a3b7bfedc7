use vstd::prelude::*;
use vstd::string::StringExecFns;

use crate::environment::{
    built_from, environment_from_records, records_view, Environment, ParseError, RecordFields,
    RecordView,
};
use crate::port::{FieldValue, JsonField};

verus! {

#[verifier::external_type_specification]
#[verifier::external_body]
pub struct ExJsonValue(serde_json::Value);

/// A JSON value; an object keeps its members in the order the document declares them.
pub enum Json {
    Null,
    Bool(bool),
    /// A number, with its value where serde_json holds it as an integer that fits in
    /// an `i64`. A number written with a fraction or an exponent is held as a float and
    /// has no such value here, even where it is whole (`80.0`, `8e1`).
    Number(Option<i64>),
    Text(String),
    Array(Vec<Json>),
    Object(Vec<(String, Json)>),
}

/// The document that serde_json reads from a text, `None` when the text is not one
/// JSON document.
pub uninterp spec fn json_document(text: Seq<char>) -> Option<Json>;

/// Relies on `serde_json::Number::as_i64` for the integer value of a number; every
/// other value is carried over one for one, members in the map's order.
#[verifier::external_body]
fn json_of(v: &serde_json::Value) -> Json {
    match v {
        serde_json::Value::Null => Json::Null,
        serde_json::Value::Bool(b) => Json::Bool(*b),
        serde_json::Value::Number(n) => Json::Number(n.as_i64()),
        serde_json::Value::String(s) => Json::Text(s.clone()),
        serde_json::Value::Array(a) => Json::Array(a.iter().map(json_of).collect()),
        serde_json::Value::Object(m) => Json::Object(m.iter().map(|(k, x)| (k.clone(), json_of(x))).collect()),
    }
}

/// Relies on `serde_json::from_str`: the document depends on the text alone; objects
/// keep declaration order because serde_json is built with `preserve_order`.
#[verifier::external_body]
fn parse_json(text: &str) -> (r: Option<Json>)
    ensures
        r == json_document(text@),
{
    serde_json::from_str::<serde_json::Value>(text).ok().map(|v| json_of(&v))
}

/// The value of the first member named `key`.
pub open spec fn member(members: Seq<(String, Json)>, key: Seq<char>) -> Option<Json>
    decreases members.len(),
{
    if members.len() == 0 {
        None
    } else if members[0].0@ == key {
        Some(members[0].1)
    } else {
        member(members.drop_first(), key)
    }
}

/// The value under `key` where `v` is an object that has one.
pub open spec fn get(v: Json, key: Seq<char>) -> Option<Json> {
    match v {
        Json::Object(m) => member(m@, key),
        _ => None,
    }
}

/// What a record holds under one of its keys, as a field value.
pub open spec fn field_value(v: Option<Json>) -> FieldValue {
    match v {
        None => FieldValue::Absent,
        Some(Json::Null) => FieldValue::Null,
        Some(Json::Bool(_)) => FieldValue::Bool,
        Some(Json::Number(n)) => FieldValue::Number(n),
        Some(Json::Text(s)) => FieldValue::Text(s@),
        Some(Json::Array(_)) => FieldValue::Array,
        Some(Json::Object(_)) => FieldValue::Object,
    }
}

/// The three fields of one record; a record that is not an object has none of them.
pub open spec fn record_view(rec: Json) -> RecordView {
    RecordView {
        username: field_value(get(rec, "username"@)),
        server: field_value(get(rec, "server"@)),
        port: field_value(get(rec, "port"@)),
    }
}

/// The records of an environment document: the members of its top-level `databases`
/// object in order, or `None` when there is no such object.
pub open spec fn environment_records(doc: Json) -> Option<Seq<(Seq<char>, RecordView)>> {
    match get(doc, "databases"@) {
        Some(Json::Object(m)) => Some(m@.map_values(|x: (String, Json)| (x.0@, record_view(x.1)))),
        _ => None,
    }
}

/// The index of the first member named `key`.
fn find_member(members: &Vec<(String, Json)>, key: &String) -> (r: Option<usize>)
    ensures
        r is None <==> member(members@, key@) is None,
        r is Some ==> r->Some_0 < members@.len() && Some(members@[r->Some_0 as int].1) == member(
            members@,
            key@,
        ),
{
    let mut i: usize = 0;
    assert(members@.subrange(0, members@.len() as int) =~= members@);
    while i < members.len()
        invariant
            i <= members@.len(),
            member(members@, key@) == member(members@.subrange(i as int, members@.len() as int), key@),
        decreases members@.len() - i,
    {
        let ghost rest = members@.subrange(i as int, members@.len() as int);
        assert(rest.drop_first() =~= members@.subrange(i + 1, members@.len() as int));
        if members[i].0 == *key {
            return Some(i);
        }
        i = i + 1;
    }
    None
}

/// The member of `v` under `key`, where `v` is an object that has one.
fn get_member<'a>(v: &'a Json, key: &String) -> (r: Option<&'a Json>)
    ensures
        r is None <==> get(*v, key@) is None,
        r is Some ==> Some(*r->Some_0) == get(*v, key@),
{
    match v {
        Json::Object(m) => match find_member(m, key) {
            Some(i) => Some(&m[i].1),
            None => None,
        },
        _ => None,
    }
}

/// What a record holds under `key`.
fn record_field(rec: &Json, key: &String) -> (r: JsonField)
    ensures
        r@ == field_value(get(*rec, key@)),
{
    match get_member(rec, key) {
        None => JsonField::Absent,
        Some(Json::Null) => JsonField::Null,
        Some(Json::Bool(_)) => JsonField::Bool,
        Some(Json::Number(n)) => JsonField::Number(*n),
        Some(Json::Text(s)) => JsonField::Text(s.clone()),
        Some(Json::Array(_)) => JsonField::Array,
        Some(Json::Object(_)) => JsonField::Object,
    }
}

/// The servers of an environment document: it must hold a `databases` object, whose
/// members are read in order and must all be usable records.
pub fn environment_from_json(doc: &Json) -> (r: Result<Environment, ParseError>)
    ensures
        environment_records(*doc) is None ==> r == Err::<Environment, ParseError>(
            ParseError::MissingDatabases,
        ),
        environment_records(*doc) is Some ==> built_from(r, environment_records(*doc)->Some_0),
{
    let databases_key = String::from_str("databases");
    let members = match get_member(doc, &databases_key) {
        Some(Json::Object(m)) => m,
        _ => return Err(ParseError::MissingDatabases),
    };
    let ghost expected = environment_records(*doc)->Some_0;
    let username_key = String::from_str("username");
    let server_key = String::from_str("server");
    let port_key = String::from_str("port");
    let mut records: Vec<(String, RecordFields)> = Vec::new();
    let mut i: usize = 0;
    while i < members.len()
        invariant
            i <= members@.len(),
            expected == members@.map_values(|x: (String, Json)| (x.0@, record_view(x.1))),
            username_key@ == "username"@,
            server_key@ == "server"@,
            port_key@ == "port"@,
            records@.len() == i,
            expected.len() == members@.len(),
            records_view(records@) == expected.subrange(0, i as int),
        decreases members@.len() - i,
    {
        let (name, rec) = &members[i];
        let fields = RecordFields {
            username: record_field(rec, &username_key),
            server: record_field(rec, &server_key),
            port: record_field(rec, &port_key),
        };
        let ghost before = records@;
        let ghost fv = fields@;
        assert(fv == record_view(*rec));
        records.push((name.clone(), fields));
        assert forall|j: int| 0 <= j <= i implies #[trigger] records_view(records@)[j]
            == expected.subrange(0, i + 1)[j] by {
            if j < i {
                assert(records@[j] == before[j]);
                assert(records_view(before)[j] == expected.subrange(0, i as int)[j]);
            }
        }
        assert(records_view(records@) =~= expected.subrange(0, i + 1));
        i = i + 1;
    }
    assert(expected.subrange(0, members@.len() as int) =~= expected);
    environment_from_records(&records)
}

/// Reads the text of an environment file into its servers, in declaration order: the
/// text must be JSON with a `databases` object, and every record in it usable.
pub fn parse_environment(text: &str) -> (r: Result<Environment, ParseError>)
    ensures
        json_document(text@) is None ==> r == Err::<Environment, ParseError>(ParseError::InvalidJson),
        json_document(text@) matches Some(doc) ==> (environment_records(doc) is None ==> r == Err::<
            Environment,
            ParseError,
        >(ParseError::MissingDatabases)) && (environment_records(doc) is Some ==> built_from(
            r,
            environment_records(doc)->Some_0,
        )),
{
    match parse_json(text) {
        None => Err(ParseError::InvalidJson),
        Some(doc) => environment_from_json(&doc),
    }
}

} // verus!
