//! Custom pupil fields: free-form named values a school attaches to
//! a student.

use vstd::prelude::*;

use crate::client::{spec_authed_request, Client, Method, PreparedRequest};
use crate::api::helpers::{decode_empties, empty_decoder, Empty};
use crate::envelope::{cc_parse, spec_classify, SuccessResponse};
use crate::error::ErrorResponse;
use crate::json::{
    field_string, field_usize, get_field, json_of, lemma_decode_seq_fail, lemma_decode_seq_step,
    obj_get, parse_json, spec_decode_seq, spec_field_string, spec_field_usize, JsonValue,
};

verus! {

/// One custom field.
#[derive(Debug, PartialEq, Eq)]
pub struct PupilField {
    pub id: usize,
    pub name: String,
    pub graphic: String,
    pub value: String,
}

/// The custom-fields payload: a note and the fields themselves.
#[derive(Debug, PartialEq, Eq)]
pub struct PupilFieldsData {
    pub note: String,
    pub fields: Vec<PupilField>,
}

pub type PupilFieldsMeta = Vec<Empty>;

pub type PupilFields = SuccessResponse<PupilFieldsData, PupilFieldsMeta>;

/// One custom field: an object with id, name, graphic and value.
pub open spec fn spec_decode_pupil_field(v: JsonValue) -> Option<PupilField> {
    match v {
        JsonValue::Object(f) => {
            let fs = f@;
            if spec_field_usize(fs, "id"@) is Some && spec_field_string(fs, "name"@) is Some
                && spec_field_string(fs, "graphic"@) is Some && spec_field_string(
                fs,
                "value"@,
            ) is Some {
                Some(
                    PupilField {
                        id: spec_field_usize(fs, "id"@)->Some_0,
                        name: spec_field_string(fs, "name"@)->Some_0,
                        graphic: spec_field_string(fs, "graphic"@)->Some_0,
                        value: spec_field_string(fs, "value"@)->Some_0,
                    },
                )
            } else {
                None
            }
        },
        _ => None,
    }
}

/// Decodes one custom field.
pub fn decode_pupil_field(v: &JsonValue) -> (r: Option<PupilField>)
    ensures
        r == spec_decode_pupil_field(*v),
{
    let fields = match v {
        JsonValue::Object(f) => f,
        _ => { return None },
    };
    let id = match field_usize(fields, "id") {
        Some(x) => x,
        None => { return None },
    };
    let name = match field_string(fields, "name") {
        Some(x) => x,
        None => { return None },
    };
    let graphic = match field_string(fields, "graphic") {
        Some(x) => x,
        None => { return None },
    };
    let value = match field_string(fields, "value") {
        Some(x) => x,
        None => { return None },
    };
    Some(PupilField { id, name, graphic, value })
}

/// The element decoder of the custom-field list, as a spec value.
pub open spec fn pupil_field_decoder() -> spec_fn(JsonValue) -> Option<PupilField> {
    |v: JsonValue| spec_decode_pupil_field(v)
}

/// Decodes the custom-field list.
pub fn decode_pupil_fields(items: &Vec<JsonValue>) -> (r: Option<Vec<PupilField>>)
    ensures
        match r {
            Some(out) => spec_decode_seq(items@, pupil_field_decoder()) == Some(out@),
            None => spec_decode_seq(items@, pupil_field_decoder()) is None,
        },
{
    let mut out: Vec<PupilField> = Vec::new();
    let mut i: usize = 0;
    proof {
        assert(items@.take(0) =~= Seq::<JsonValue>::empty());
    }
    while i < items.len()
        invariant
            i <= items@.len(),
            spec_decode_seq(items@.take(i as int), pupil_field_decoder()) == Some(out@),
        decreases items@.len() - i,
    {
        match decode_pupil_field(&items[i]) {
            Some(p) => {
                out.push(p);
            },
            None => {
                proof {
                    lemma_decode_seq_fail(items@, pupil_field_decoder(), i as int);
                }
                return None;
            },
        }
        proof {
            lemma_decode_seq_step(items@, pupil_field_decoder(), i as int);
        }
        i = i + 1;
    }
    proof {
        assert(items@.take(items@.len() as int) =~= items@);
    }
    Some(out)
}

/// The custom-fields payload shape: a note, a field array, and an
/// array of empty objects as metadata.
pub open spec fn spec_pupilfields_payload_ok(doc: JsonValue) -> bool {
    match doc {
        JsonValue::Object(fs) => match (obj_get(fs@, "data"@), obj_get(fs@, "meta"@)) {
            (Some(JsonValue::Object(dfs)), Some(JsonValue::Array(mitems))) => {
                &&& spec_field_string(dfs@, "note"@) is Some
                &&& match obj_get(dfs@, "fields"@) {
                    Some(JsonValue::Array(items)) => spec_decode_seq(
                        items@,
                        pupil_field_decoder(),
                    ) is Some,
                    _ => false,
                }
                &&& spec_decode_seq(mitems@, empty_decoder()) is Some
            },
            _ => false,
        },
        _ => false,
    }
}

/// The typed reading of a custom-fields body.
pub open spec fn spec_pupilfields_payload_matches(resp: PupilFields, doc: JsonValue) -> bool {
    match doc {
        JsonValue::Object(fs) => match (obj_get(fs@, "data"@), obj_get(fs@, "meta"@)) {
            (Some(JsonValue::Object(dfs)), Some(JsonValue::Array(mitems))) => {
                &&& spec_field_string(dfs@, "note"@) == Some(resp.data.note)
                &&& match obj_get(dfs@, "fields"@) {
                    Some(JsonValue::Array(items)) => spec_decode_seq(
                        items@,
                        pupil_field_decoder(),
                    ) == Some(resp.data.fields@),
                    _ => false,
                }
                &&& spec_decode_seq(mitems@, empty_decoder()) == Some(resp.meta@)
            },
            _ => false,
        },
        _ => false,
    }
}

/// Interprets the body of a custom-fields response.
pub fn parse_pupilfields_response(text: &str) -> (r: Result<PupilFields, ErrorResponse>)
    ensures
        match r {
            Ok(resp) => spec_classify(text@) is Ok && spec_pupilfields_payload_ok(
                json_of(text@)->Some_0,
            ) && spec_pupilfields_payload_matches(resp, json_of(text@)->Some_0),
            Err(e) => (spec_classify(text@) matches Err(e0) && e == e0) || (spec_classify(text@)
                is Ok && !spec_pupilfields_payload_ok(json_of(text@)->Some_0)
                && e == ErrorResponse::SerdeJsonParsingError),
        },
{
    let body = match cc_parse(text) {
        Ok(b) => b,
        Err(e) => { return Err(e) },
    };
    match parse_json(body.as_str()) {
        Some(JsonValue::Object(fields)) => {
            let dfs = match get_field(&fields, "data") {
                Some(JsonValue::Object(dfs)) => dfs,
                _ => { return Err(ErrorResponse::SerdeJsonParsingError) },
            };
            let mitems = match get_field(&fields, "meta") {
                Some(JsonValue::Array(mitems)) => mitems,
                _ => { return Err(ErrorResponse::SerdeJsonParsingError) },
            };
            let note = match field_string(dfs, "note") {
                Some(x) => x,
                None => { return Err(ErrorResponse::SerdeJsonParsingError) },
            };
            let field_items = match get_field(dfs, "fields") {
                Some(JsonValue::Array(items)) => items,
                _ => { return Err(ErrorResponse::SerdeJsonParsingError) },
            };
            let pupil_fields = match decode_pupil_fields(field_items) {
                Some(x) => x,
                None => { return Err(ErrorResponse::SerdeJsonParsingError) },
            };
            let meta = match decode_empties(mitems) {
                Some(x) => x,
                None => { return Err(ErrorResponse::SerdeJsonParsingError) },
            };
            Ok(SuccessResponse { data: PupilFieldsData { note, fields: pupil_fields }, meta })
        },
        _ => Err(ErrorResponse::SerdeJsonParsingError),
    }
}

impl Client {
    /// Prepares the request for the student's custom fields.
    pub fn pupilfields_request(&self) -> (r: PreparedRequest)
        requires
            self.student_id@.len() > 0,
        ensures
            spec_authed_request(
                r,
                *self,
                Method::Get,
                "/customfields/"@ + self.student_id@,
            ),
            r.content_type is None,
            r.body is None,
    {
        let mut path = String::from_str("/customfields/");
        path.append(self.student_id.as_str());
        self.build_get(path.as_str())
    }
}

} // verus!
