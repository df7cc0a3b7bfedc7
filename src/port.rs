use vstd::prelude::*;

use crate::decimal::{parse_i64, parsed_i64};

verus! {

/// Port used when a record gives none, or none that reads as an integer.
pub const DEFAULT_PORT: i64 = 22;

/// What a JSON document holds under one key of an object, as far as the records need it.
pub enum JsonField {
    /// The key is not there.
    Absent,
    Null,
    Bool,
    /// A number, with its value where it is written as an integer that fits in an
    /// `i64`; a whole number written as a float (`80.0`) has none.
    Number(Option<i64>),
    Text(String),
    Array,
    Object,
}

/// The plain value of a [`JsonField`], strings given by their characters.
pub enum FieldValue {
    Absent,
    Null,
    Bool,
    Number(Option<i64>),
    Text(Seq<char>),
    Array,
    Object,
}

impl View for JsonField {
    type V = FieldValue;

    open spec fn view(&self) -> FieldValue {
        match self {
            JsonField::Absent => FieldValue::Absent,
            JsonField::Null => FieldValue::Null,
            JsonField::Bool => FieldValue::Bool,
            JsonField::Number(n) => FieldValue::Number(*n),
            JsonField::Text(s) => FieldValue::Text(s@),
            JsonField::Array => FieldValue::Array,
            JsonField::Object => FieldValue::Object,
        }
    }
}

/// The port that a record's `port` field stands for.
pub open spec fn port_value(v: FieldValue) -> i64 {
    match v {
        FieldValue::Number(Some(n)) => n,
        FieldValue::Text(s) => match parsed_i64(s) {
            Some(n) => n,
            None => DEFAULT_PORT,
        },
        _ => DEFAULT_PORT,
    }
}

pub open spec fn normalized_port(p: &JsonField) -> i64 {
    port_value(p@)
}

/// Reads a port: a number that is an `i64` as it is, a string that is one as its
/// value, and the default port in every other case.
pub fn normalize_port(p: &JsonField) -> (r: i64)
    ensures
        r == normalized_port(p),
        p is Number && p->Number_0 is Some ==> r == p->Number_0->Some_0,
        p is Text && parsed_i64(p->Text_0@) is Some ==> r == parsed_i64(p->Text_0@)->Some_0,
        p is Text && parsed_i64(p->Text_0@) is None ==> r == DEFAULT_PORT,
        p is Text && p->Text_0@.len() == 0 ==> r == DEFAULT_PORT,
        p is Number && p->Number_0 is None ==> r == DEFAULT_PORT,
        p is Absent || p is Null || p is Bool || p is Array || p is Object ==> r == DEFAULT_PORT,
{
    match p {
        JsonField::Number(Some(n)) => *n,
        JsonField::Text(s) => match parse_i64(s.as_str()) {
            Some(v) => v,
            None => DEFAULT_PORT,
        },
        _ => DEFAULT_PORT,
    }
}

} // verus!
