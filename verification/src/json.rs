//! A self-contained model of JSON values.
//!
//! The wire protocol delivers untyped JSON blobs whose shape depends on
//! string discriminants. This module holds the value model those blobs are
//! read from: objects keep their fields in order of appearance, and a number
//! is either an integer in the `i64` range or an opaque marker for any other
//! number (every protocol field this client reads is an integer, a string, a
//! boolean, or a nested object).

use vstd::prelude::*;

verus! {

/// A JSON number: an integer in the `i64` range, or any other number
/// (fractional or out of range), whose exact value this layer never reads.
#[derive(Clone, Copy, Debug, PartialEq)]
pub enum JsonNum {
    Int(i64),
    Other,
}

/// One `key: value` binding inside a JSON object.
#[derive(Debug, PartialEq)]
pub struct JsonField {
    pub key: String,
    pub value: Json,
}

/// A JSON value. Object fields are kept in order of appearance; lookups
/// take the first binding of a key.
#[derive(Debug, PartialEq)]
pub enum Json {
    Null,
    Bool(bool),
    Num(JsonNum),
    Str(String),
    Arr(Vec<Json>),
    Obj(Vec<JsonField>),
}

/// Mathematical view of a JSON value: strings become `Seq<char>`,
/// vectors become sequences.
pub enum JsonV {
    Null,
    Bool(bool),
    Num(JsonNum),
    Str(Seq<char>),
    Arr(Seq<JsonV>),
    Obj(Seq<(Seq<char>, JsonV)>),
}

pub open spec fn json_view(j: Json) -> JsonV
    decreases j,
{
    match j {
        Json::Null => JsonV::Null,
        Json::Bool(b) => JsonV::Bool(b),
        Json::Num(n) => JsonV::Num(n),
        Json::Str(s) => JsonV::Str(s@),
        Json::Arr(items) => JsonV::Arr(items_view(items@)),
        Json::Obj(fields) => JsonV::Obj(fields_view(fields@)),
    }
}

/// View of an array's elements, one `JsonV` per element.
pub open spec fn items_view(items: Seq<Json>) -> Seq<JsonV>
    decreases items,
{
    if items.len() == 0 {
        Seq::empty()
    } else {
        seq![json_view(items[0])] + items_view(items.skip(1))
    }
}

/// View of an object's field list, one `(key, value)` pair per binding.
pub open spec fn fields_view(fields: Seq<JsonField>) -> Seq<(Seq<char>, JsonV)>
    decreases fields,
{
    if fields.len() == 0 {
        Seq::empty()
    } else {
        seq![(fields[0].key@, json_view(fields[0].value))] + fields_view(fields.skip(1))
    }
}

impl View for Json {
    type V = JsonV;

    open spec fn view(&self) -> JsonV {
        json_view(*self)
    }
}

pub broadcast proof fn lemma_items_view(items: Seq<Json>)
    ensures
        (#[trigger] items_view(items)).len() == items.len(),
        forall|i: int| 0 <= i < items.len() ==> items_view(items)[i] == items[i]@,
    decreases items.len(),
{
    if items.len() > 0 {
        lemma_items_view(items.skip(1));
    }
}

pub broadcast proof fn lemma_fields_view(fields: Seq<JsonField>)
    ensures
        (#[trigger] fields_view(fields)).len() == fields.len(),
        forall|i: int|
            0 <= i < fields.len() ==> fields_view(fields)[i] == (
            fields[i].key@,
            fields[i].value@,
            ),
    decreases fields.len(),
{
    if fields.len() > 0 {
        lemma_fields_view(fields.skip(1));
    }
}

/// First binding of `key` among an object's fields, if any.
pub open spec fn spec_get(fields: Seq<(Seq<char>, JsonV)>, key: Seq<char>) -> Option<JsonV>
    decreases fields.len(),
{
    if fields.len() == 0 {
        None
    } else if fields[0].0 == key {
        Some(fields[0].1)
    } else {
        spec_get(fields.skip(1), key)
    }
}

/// Relies on `str`'s `PartialEq`: two string slices are equal exactly when
/// they hold the same characters.
#[verifier::external_body]
pub fn str_eq(a: &str, b: &str) -> (r: bool)
    ensures
        r == (a@ == b@),
{
    a == b
}

/// Look up the first binding of `key` in an object's field list.
pub fn obj_get<'a>(fields: &'a Vec<JsonField>, key: &str) -> (r: Option<&'a Json>)
    ensures
        match r {
            Some(j) => spec_get(fields_view(fields@), key@) == Some(j@),
            None => spec_get(fields_view(fields@), key@) is None,
        },
{
    let ghost fv = fields_view(fields@);
    proof {
        lemma_fields_view(fields@);
        assert(fv.skip(0) =~= fv);
    }
    let mut i: usize = 0;
    while i < fields.len()
        invariant
            i <= fields.len(),
            fv == fields_view(fields@),
            fv.len() == fields@.len(),
            forall|k: int| 0 <= k < fields@.len() ==> fv[k] == (fields@[k].key@, fields@[k].value@),
            spec_get(fv, key@) == spec_get(fv.skip(i as int), key@),
        decreases fields.len() - i,
    {
        if str_eq(fields[i].key.as_str(), key) {
            proof {
                assert(fv.skip(i as int)[0] == fv[i as int]);
            }
            return Some(&fields[i].value);
        }
        proof {
            assert(fv.skip(i as int)[0] == fv[i as int]);
            assert(fv.skip(i as int).skip(1) =~= fv.skip(i + 1));
        }
        i += 1;
    }
    proof {
        assert(fv.skip(i as int).len() == 0);
    }
    None
}

impl Json {
    /// Deep copy: the result has the same mathematical value.
    pub fn duplicate(&self) -> (r: Json)
        ensures
            r@ == self@,
        decreases self,
    {
        match self {
            Json::Null => Json::Null,
            Json::Bool(b) => Json::Bool(*b),
            Json::Num(n) => Json::Num(*n),
            Json::Str(s) => Json::Str(s.clone()),
            Json::Arr(items) => {
                let out = duplicate_items(items);
                proof {
                    lemma_items_view(items@);
                    lemma_items_view(out@);
                    assert(items_view(out@) =~= items_view(items@));
                }
                Json::Arr(out)
            },
            Json::Obj(fields) => {
                let out = duplicate_fields(fields);
                proof {
                    lemma_fields_view(fields@);
                    lemma_fields_view(out@);
                    assert(fields_view(out@) =~= fields_view(fields@));
                }
                Json::Obj(out)
            },
        }
    }
}

/// Deep copy of an array's elements.
pub fn duplicate_items(items: &Vec<Json>) -> (r: Vec<Json>)
    ensures
        r@.len() == items@.len(),
        forall|i: int| 0 <= i < items@.len() ==> r@[i]@ == items@[i]@,
    decreases items,
{
    let mut out: Vec<Json> = Vec::new();
    let mut i: usize = 0;
    while i < items.len()
        invariant
            i <= items.len(),
            out@.len() == i,
            forall|k: int| 0 <= k < i ==> out@[k]@ == items@[k]@,
        decreases items.len() - i,
    {
        let d = items[i].duplicate();
        out.push(d);
        i += 1;
    }
    out
}

/// Deep copy of an object's field list.
pub fn duplicate_fields(fields: &Vec<JsonField>) -> (r: Vec<JsonField>)
    ensures
        r@.len() == fields@.len(),
        forall|i: int|
            0 <= i < fields@.len() ==> r@[i].key@ == fields@[i].key@ && r@[i].value@
                == fields@[i].value@,
    decreases fields,
{
    let mut out: Vec<JsonField> = Vec::new();
    let mut i: usize = 0;
    while i < fields.len()
        invariant
            i <= fields.len(),
            out@.len() == i,
            forall|k: int|
                0 <= k < i ==> out@[k].key@ == fields@[k].key@ && out@[k].value@
                    == fields@[k].value@,
        decreases fields.len() - i,
    {
        let d = JsonField { key: fields[i].key.clone(), value: fields[i].value.duplicate() };
        out.push(d);
        i += 1;
    }
    out
}

} // verus!
