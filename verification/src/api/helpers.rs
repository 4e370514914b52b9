//! Decoding helpers shared by the endpoint modules.

use vstd::prelude::*;

use crate::json::{
    get_field, lemma_decode_seq_fail, lemma_decode_seq_step, obj_get, spec_decode_seq, str_eq,
    JsonValue,
};

verus! {

/// The boolean encoded by the strings `"yes"` and `"no"`; any other
/// string is rejected.
pub open spec fn spec_yes_no(s: Seq<char>) -> Option<bool> {
    if s == "yes"@ {
        Some(true)
    } else if s == "no"@ {
        Some(false)
    } else {
        None
    }
}

/// Decodes a string-encoded boolean: `"yes"` and `"no"` only.
pub fn parse_yes_no(s: &str) -> (r: Option<bool>)
    ensures
        r == spec_yes_no(s@),
{
    if str_eq(s, "yes") {
        Some(true)
    } else if str_eq(s, "no") {
        Some(false)
    } else {
        None
    }
}

/// A required field holding a string-encoded boolean.
pub open spec fn spec_field_yes_no(fields: Seq<(String, JsonValue)>, key: Seq<char>) -> Option<
    bool,
> {
    match obj_get(fields, key) {
        Some(JsonValue::Str(s)) => spec_yes_no(s@),
        _ => None,
    }
}

pub fn field_yes_no(fields: &Vec<(String, JsonValue)>, key: &str) -> (r: Option<bool>)
    ensures
        r == spec_field_yes_no(fields@, key@),
{
    match get_field(fields, key) {
        Some(JsonValue::Str(s)) => parse_yes_no(s.as_str()),
        _ => None,
    }
}

/// A payload or metadata slot that carries no information.
#[derive(Debug, PartialEq, Eq, Structural)]
pub struct Empty {}

/// Any JSON object decodes to [`Empty`]; everything else is rejected.
pub open spec fn spec_decode_empty(v: JsonValue) -> Option<Empty> {
    match v {
        JsonValue::Object(_) => Some(Empty {  }),
        _ => None,
    }
}

pub fn decode_empty(v: &JsonValue) -> (r: Option<Empty>)
    ensures
        r == spec_decode_empty(*v),
{
    match v {
        JsonValue::Object(_) => Some(Empty {  }),
        _ => None,
    }
}

/// The element decoder of an array of empty objects, as a spec value.
pub open spec fn empty_decoder() -> spec_fn(JsonValue) -> Option<Empty> {
    |v: JsonValue| spec_decode_empty(v)
}

/// Decodes a metadata array whose elements carry no information.
pub fn decode_empties(items: &Vec<JsonValue>) -> (r: Option<Vec<Empty>>)
    ensures
        match r {
            Some(out) => spec_decode_seq(items@, empty_decoder()) == Some(out@),
            None => spec_decode_seq(items@, empty_decoder()) is None,
        },
{
    let mut out: Vec<Empty> = Vec::new();
    let mut i: usize = 0;
    proof {
        assert(items@.take(0) =~= Seq::<JsonValue>::empty());
    }
    while i < items.len()
        invariant
            i <= items@.len(),
            spec_decode_seq(items@.take(i as int), empty_decoder()) == Some(out@),
        decreases items@.len() - i,
    {
        match decode_empty(&items[i]) {
            Some(e) => {
                out.push(e);
            },
            None => {
                proof {
                    lemma_decode_seq_fail(items@, empty_decoder(), i as int);
                }
                return None;
            },
        }
        proof {
            lemma_decode_seq_step(items@, empty_decoder(), i as int);
        }
        i = i + 1;
    }
    proof {
        assert(items@.take(items@.len() as int) =~= items@);
    }
    Some(out)
}

} // verus!
