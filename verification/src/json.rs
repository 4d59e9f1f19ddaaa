//! A plain model of JSON values.
//!
//! The orchestrator protocol reads only strings, arrays and objects out of
//! JSON documents; numeric content is never read, so a number is recorded
//! only as being a number. Object fields keep their document order, which
//! matters for service resolution (first match wins).

use vstd::prelude::*;

verus! {

broadcast use vstd::std_specs::vec::group_vec_axioms;

/// A JSON value as the protocol sees it.
#[derive(Debug, PartialEq)]
pub enum JsonValue {
    Null,
    Bool(bool),
    /// A JSON number; the protocol never reads numeric content.
    Number,
    Str(String),
    Arr(Vec<JsonValue>),
    Obj(Vec<(String, JsonValue)>),
}

/// The mathematical shape of a `JsonValue`.
#[verifier::ext_equal]
pub enum JsonData {
    Null,
    Bool(bool),
    Number,
    Str(Seq<char>),
    Arr(Seq<JsonData>),
    Obj(Seq<(Seq<char>, JsonData)>),
}

pub open spec fn view_of(v: JsonValue) -> JsonData
    decreases v,
{
    match v {
        JsonValue::Null => JsonData::Null,
        JsonValue::Bool(b) => JsonData::Bool(b),
        JsonValue::Number => JsonData::Number,
        JsonValue::Str(s) => JsonData::Str(s@),
        JsonValue::Arr(items) => JsonData::Arr(
            Seq::new(
                items@.len(),
                |i: int|
                    if 0 <= i < items@.len() {
                        view_of(items@[i])
                    } else {
                        JsonData::Null
                    },
            ),
        ),
        JsonValue::Obj(fields) => JsonData::Obj(
            Seq::new(
                fields@.len(),
                |i: int|
                    if 0 <= i < fields@.len() {
                        (fields@[i].0@, view_of(fields@[i].1))
                    } else {
                        (Seq::empty(), JsonData::Null)
                    },
            ),
        ),
    }
}

impl View for JsonValue {
    type V = JsonData;

    open spec fn view(&self) -> JsonData {
        view_of(*self)
    }
}

/// The object fields of `v`; empty if `v` is not an object.
pub open spec fn spec_obj_fields(v: JsonData) -> Seq<(Seq<char>, JsonData)> {
    match v {
        JsonData::Obj(fields) => fields,
        _ => Seq::empty(),
    }
}

/// The first field at or after position `i` named `key`, if any.
pub open spec fn spec_lookup_from(
    fields: Seq<(Seq<char>, JsonData)>,
    key: Seq<char>,
    i: int,
) -> Option<JsonData>
    decreases fields.len() - i,
{
    if i < 0 || i >= fields.len() {
        None
    } else if fields[i].0 == key {
        Some(fields[i].1)
    } else {
        spec_lookup_from(fields, key, i + 1)
    }
}

/// The field named `key` of the object `v`: the first field of that name,
/// or `None` if `v` is not an object or has no such field.
pub open spec fn spec_get(v: JsonData, key: Seq<char>) -> Option<JsonData> {
    match v {
        JsonData::Obj(fields) => spec_lookup_from(fields, key, 0),
        _ => None,
    }
}

/// The string content of `v`, if `v` is a JSON string.
pub open spec fn spec_as_str(v: JsonData) -> Option<Seq<char>> {
    match v {
        JsonData::Str(s) => Some(s),
        _ => None,
    }
}

/// The string field named `key` of the object `v`, if present with that type.
pub open spec fn spec_get_str(v: JsonData, key: Seq<char>) -> Option<Seq<char>> {
    match spec_get(v, key) {
        Some(f) => spec_as_str(f),
        None => None,
    }
}

impl JsonValue {
    /// Looks up the first field named `key`; `None` if `self` is not an
    /// object or no field matches.
    pub fn get<'a>(&'a self, key: &String) -> (r: Option<&'a JsonValue>)
        ensures
            match r {
                Some(f) => spec_get(self@, key@) == Some(f@),
                None => spec_get(self@, key@) is None,
            },
    {
        match self {
            JsonValue::Obj(fields) => {
                let ghost fs = spec_obj_fields(self@);
                let n = fields.len();
                for i in 0..n
                    invariant
                        n == fields@.len(),
                        fs == spec_obj_fields(self@),
                        fs.len() == n,
                        forall|k: int|
                            0 <= k < n ==> fs[k] == (fields@[k].0@, view_of(fields@[k].1)),
                        spec_get(self@, key@) == spec_lookup_from(fs, key@, i as int),
                {
                    if fields[i].0.eq(key) {
                        return Some(&fields[i].1);
                    }
                }
                None
            },
            _ => None,
        }
    }

    /// The string content, if this is a JSON string.
    pub fn as_str<'a>(&'a self) -> (r: Option<&'a String>)
        ensures
            match r {
                Some(s) => spec_as_str(self@) == Some(s@),
                None => spec_as_str(self@) is None,
            },
    {
        match self {
            JsonValue::Str(s) => Some(s),
            _ => None,
        }
    }

    /// The string field named `key`, if this is an object holding one.
    pub fn get_str<'a>(&'a self, key: &String) -> (r: Option<&'a String>)
        ensures
            match r {
                Some(s) => spec_get_str(self@, key@) == Some(s@),
                None => spec_get_str(self@, key@) is None,
            },
    {
        match self.get(key) {
            Some(f) => f.as_str(),
            None => None,
        }
    }
}

} // verus!
