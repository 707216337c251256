//! Field extraction from JSON objects, with the tolerant reading rules the
//! wire protocol uses.
//!
//! Each recognized envelope type reads only the fields this client consumes
//! and ignores the rest. A *required* field must be present with the right
//! shape; an *optional* field may be missing or `null`; a *defaulted* field
//! falls back to a fixed value when missing (but not when `null`, and not
//! when it has the wrong shape). Extraction of a whole schema fails — the
//! caller falls back to an `Unknown` classification — exactly when one of
//! its fields fails.

use vstd::prelude::*;
use crate::json::{
    duplicate_fields, fields_view, items_view, lemma_fields_view, lemma_items_view, obj_get,
    spec_get, Json, JsonField, JsonNum, JsonV,
};

verus! {

/// A required string field: present and a string, or the schema fails.
pub open spec fn spec_req_str(fields: Seq<(Seq<char>, JsonV)>, key: Seq<char>) -> Option<
    Seq<char>,
> {
    match spec_get(fields, key) {
        Some(JsonV::Str(s)) => Some(s),
        _ => None,
    }
}

/// An optional string field: missing or `null` reads as absent.
pub open spec fn spec_opt_str(fields: Seq<(Seq<char>, JsonV)>, key: Seq<char>) -> Option<
    Option<Seq<char>>,
> {
    match spec_get(fields, key) {
        None => Some(None),
        Some(JsonV::Null) => Some(None),
        Some(JsonV::Str(s)) => Some(Some(s)),
        Some(_) => None,
    }
}

/// A string field that defaults to the empty string when missing.
pub open spec fn spec_def_str(fields: Seq<(Seq<char>, JsonV)>, key: Seq<char>) -> Option<
    Seq<char>,
> {
    match spec_get(fields, key) {
        None => Some(Seq::<char>::empty()),
        Some(JsonV::Str(s)) => Some(s),
        Some(_) => None,
    }
}

/// An optional field kept as a raw JSON value: missing or `null` reads as
/// absent, anything else is kept verbatim. Never fails.
pub open spec fn spec_opt_json(fields: Seq<(Seq<char>, JsonV)>, key: Seq<char>) -> Option<JsonV> {
    match spec_get(fields, key) {
        None => None,
        Some(JsonV::Null) => None,
        Some(v) => Some(v),
    }
}

/// An optional object-valued field: missing or `null` reads as absent.
pub open spec fn spec_opt_obj(fields: Seq<(Seq<char>, JsonV)>, key: Seq<char>) -> Option<
    Option<Seq<(Seq<char>, JsonV)>>,
> {
    match spec_get(fields, key) {
        None => Some(None),
        Some(JsonV::Null) => Some(None),
        Some(JsonV::Obj(o)) => Some(Some(o)),
        Some(_) => None,
    }
}

/// An object-valued field that defaults to the empty object when missing.
pub open spec fn spec_def_obj(fields: Seq<(Seq<char>, JsonV)>, key: Seq<char>) -> Option<
    Seq<(Seq<char>, JsonV)>,
> {
    match spec_get(fields, key) {
        None => Some(Seq::empty()),
        Some(JsonV::Obj(o)) => Some(o),
        Some(_) => None,
    }
}

/// A boolean field that defaults to `false` when missing.
pub open spec fn spec_def_bool(fields: Seq<(Seq<char>, JsonV)>, key: Seq<char>) -> Option<bool> {
    match spec_get(fields, key) {
        None => Some(false),
        Some(JsonV::Bool(b)) => Some(b),
        Some(_) => None,
    }
}

/// An optional numeric field: missing or `null` reads as absent.
pub open spec fn spec_opt_num(fields: Seq<(Seq<char>, JsonV)>, key: Seq<char>) -> Option<
    Option<JsonNum>,
> {
    match spec_get(fields, key) {
        None => Some(None),
        Some(JsonV::Null) => Some(None),
        Some(JsonV::Num(n)) => Some(Some(n)),
        Some(_) => None,
    }
}

/// A `u32` counter field that defaults to zero when missing. Any number
/// outside `0 ..= u32::MAX`, or with no integer value, fails.
pub open spec fn spec_def_u32(fields: Seq<(Seq<char>, JsonV)>, key: Seq<char>) -> Option<u32> {
    match spec_get(fields, key) {
        None => Some(0u32),
        Some(JsonV::Num(JsonNum::Int(n))) => if 0 <= n <= u32::MAX {
            Some(n as u32)
        } else {
            None
        },
        Some(_) => None,
    }
}

/// Whether every element of a JSON array is a string.
pub open spec fn all_strings(items: Seq<JsonV>) -> bool {
    forall|i: int| 0 <= i < items.len() ==> items[i] is Str
}

/// A list-of-strings field that defaults to the empty list when missing.
pub open spec fn spec_def_strings(fields: Seq<(Seq<char>, JsonV)>, key: Seq<char>) -> Option<
    Seq<Seq<char>>,
> {
    match spec_get(fields, key) {
        None => Some(Seq::empty()),
        Some(JsonV::Arr(items)) => if all_strings(items) {
            Some(Seq::new(items.len(), |i: int| items[i]->Str_0))
        } else {
            None
        },
        Some(_) => None,
    }
}

/// View of a vector of strings.
pub open spec fn strings_view(v: Seq<String>) -> Seq<Seq<char>> {
    Seq::new(v.len(), |i: int| v[i]@)
}

/// View of an optional string.
pub open spec fn opt_str_view(o: Option<String>) -> Option<Seq<char>> {
    match o {
        Some(s) => Some(s@),
        None => None,
    }
}

/// View of an optional raw JSON payload.
pub open spec fn opt_json_view(o: Option<Json>) -> Option<JsonV> {
    match o {
        Some(j) => Some(j@),
        None => None,
    }
}

/// View of an optional object payload kept as a field list.
pub open spec fn opt_obj_view(o: Option<Vec<JsonField>>) -> Option<Seq<(Seq<char>, JsonV)>> {
    match o {
        Some(v) => Some(fields_view(v@)),
        None => None,
    }
}

pub fn get_req_str(fields: &Vec<JsonField>, key: &str) -> (r: Option<String>)
    ensures
        match r {
            Some(s) => spec_req_str(fields_view(fields@), key@) == Some(s@),
            None => spec_req_str(fields_view(fields@), key@) is None,
        },
{
    match obj_get(fields, key) {
        Some(Json::Str(s)) => Some(s.clone()),
        _ => None,
    }
}

pub fn get_opt_str(fields: &Vec<JsonField>, key: &str) -> (r: Option<Option<String>>)
    ensures
        match r {
            Some(o) => spec_opt_str(fields_view(fields@), key@) == Some(opt_str_view(o)),
            None => spec_opt_str(fields_view(fields@), key@) is None,
        },
{
    match obj_get(fields, key) {
        None => Some(None),
        Some(Json::Null) => Some(None),
        Some(Json::Str(s)) => Some(Some(s.clone())),
        Some(_) => None,
    }
}

pub fn get_def_str(fields: &Vec<JsonField>, key: &str) -> (r: Option<String>)
    ensures
        match r {
            Some(s) => spec_def_str(fields_view(fields@), key@) == Some(s@),
            None => spec_def_str(fields_view(fields@), key@) is None,
        },
{
    match obj_get(fields, key) {
        None => Some(String::new()),
        Some(Json::Str(s)) => Some(s.clone()),
        Some(_) => None,
    }
}

pub fn get_opt_json(fields: &Vec<JsonField>, key: &str) -> (r: Option<Json>)
    ensures
        opt_json_view(r) == spec_opt_json(fields_view(fields@), key@),
{
    match obj_get(fields, key) {
        None => None,
        Some(Json::Null) => None,
        Some(v) => Some(v.duplicate()),
    }
}

pub fn get_opt_obj(fields: &Vec<JsonField>, key: &str) -> (r: Option<Option<Vec<JsonField>>>)
    ensures
        match r {
            Some(o) => spec_opt_obj(fields_view(fields@), key@) == Some(opt_obj_view(o)),
            None => spec_opt_obj(fields_view(fields@), key@) is None,
        },
{
    match obj_get(fields, key) {
        None => Some(None),
        Some(Json::Null) => Some(None),
        Some(Json::Obj(o)) => {
            let d = duplicate_fields(o);
            proof {
                lemma_fields_view(o@);
                lemma_fields_view(d@);
                assert(fields_view(d@) =~= fields_view(o@));
            }
            Some(Some(d))
        },
        Some(_) => None,
    }
}

pub fn get_def_obj(fields: &Vec<JsonField>, key: &str) -> (r: Option<Vec<JsonField>>)
    ensures
        match r {
            Some(o) => spec_def_obj(fields_view(fields@), key@) == Some(fields_view(o@)),
            None => spec_def_obj(fields_view(fields@), key@) is None,
        },
{
    match obj_get(fields, key) {
        None => Some(Vec::new()),
        Some(Json::Obj(o)) => {
            let d = duplicate_fields(o);
            proof {
                lemma_fields_view(o@);
                lemma_fields_view(d@);
                assert(fields_view(d@) =~= fields_view(o@));
            }
            Some(d)
        },
        Some(_) => None,
    }
}

pub fn get_def_bool(fields: &Vec<JsonField>, key: &str) -> (r: Option<bool>)
    ensures
        match r {
            Some(b) => spec_def_bool(fields_view(fields@), key@) == Some(b),
            None => spec_def_bool(fields_view(fields@), key@) is None,
        },
{
    match obj_get(fields, key) {
        None => Some(false),
        Some(Json::Bool(b)) => Some(*b),
        Some(_) => None,
    }
}

pub fn get_opt_num(fields: &Vec<JsonField>, key: &str) -> (r: Option<Option<JsonNum>>)
    ensures
        match r {
            Some(o) => spec_opt_num(fields_view(fields@), key@) == Some(o),
            None => spec_opt_num(fields_view(fields@), key@) is None,
        },
{
    match obj_get(fields, key) {
        None => Some(None),
        Some(Json::Null) => Some(None),
        Some(Json::Num(n)) => Some(Some(*n)),
        Some(_) => None,
    }
}

pub fn get_def_u32(fields: &Vec<JsonField>, key: &str) -> (r: Option<u32>)
    ensures
        match r {
            Some(n) => spec_def_u32(fields_view(fields@), key@) == Some(n),
            None => spec_def_u32(fields_view(fields@), key@) is None,
        },
{
    match obj_get(fields, key) {
        None => Some(0),
        Some(Json::Num(JsonNum::Int(n))) => {
            if 0 <= *n && *n <= 4294967295i64 {
                Some(*n as u32)
            } else {
                None
            }
        },
        Some(_) => None,
    }
}

pub fn get_def_strings(fields: &Vec<JsonField>, key: &str) -> (r: Option<Vec<String>>)
    ensures
        match r {
            Some(v) => spec_def_strings(fields_view(fields@), key@) == Some(strings_view(v@)),
            None => spec_def_strings(fields_view(fields@), key@) is None,
        },
{
    match obj_get(fields, key) {
        None => {
            let out: Vec<String> = Vec::new();
            proof {
                assert(strings_view(out@) =~= Seq::<Seq<char>>::empty());
            }
            Some(out)
        },
        Some(Json::Arr(items)) => {
            let ghost iv = items_view(items@);
            proof {
                lemma_items_view(items@);
                assert(spec_get(fields_view(fields@), key@) == Some(JsonV::Arr(iv)));
            }
            let mut out: Vec<String> = Vec::new();
            let mut i: usize = 0;
            while i < items.len()
                invariant
                    i <= items.len(),
                    iv == items_view(items@),
                    iv.len() == items@.len(),
                    spec_get(fields_view(fields@), key@) == Some(JsonV::Arr(iv)),
                    forall|k: int| 0 <= k < items@.len() ==> iv[k] == items@[k]@,
                    out@.len() == i,
                    forall|k: int| 0 <= k < i ==> iv[k] is Str && out@[k]@ == iv[k]->Str_0,
                decreases items.len() - i,
            {
                match &items[i] {
                    Json::Str(s) => {
                        out.push(s.clone());
                    },
                    _ => {
                        proof {
                            let jj = items@[i as int];
                            assert(!(jj matches Json::Str(_)));
                            assert(!(iv[i as int] is Str)) by {
                                match jj {
                                    Json::Null => {},
                                    Json::Bool(_) => {},
                                    Json::Num(_) => {},
                                    Json::Str(_) => {},
                                    Json::Arr(_) => {},
                                    Json::Obj(_) => {},
                                }
                            }
                            assert(!all_strings(iv));
                        }
                        return None;
                    },
                }
                i += 1;
            }
            proof {
                assert(spec_get(fields_view(fields@), key@) == Some(JsonV::Arr(iv)));
                assert(all_strings(iv));
                assert(strings_view(out@) =~= Seq::new(iv.len(), |k: int| iv[k]->Str_0));
                assert(spec_def_strings(fields_view(fields@), key@) == Some(
                    Seq::new(iv.len(), |k: int| iv[k]->Str_0),
                ));
            }
            Some(out)
        },
        Some(_) => None,
    }
}

} // verus!
