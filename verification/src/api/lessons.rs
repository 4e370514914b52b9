//! The timetable: the student's lessons on a given date.

use vstd::prelude::*;

use crate::client::{spec_authed_request, Client, Method, PreparedRequest};
use crate::codec::{form_encode_pair, form_pair_encoded};
use crate::date::Date;
use crate::envelope::{cc_parse, spec_classify, SuccessResponse};
use crate::error::ErrorResponse;
use crate::json::{
    field_bool, field_string, field_strings, field_usize, get_field, json_of,
    lemma_decode_seq_fail, lemma_decode_seq_step, obj_get, parse_json, spec_decode_seq,
    spec_field_bool, spec_field_string, spec_field_strings, spec_field_usize, JsonValue,
};

verus! {

/// One timetable entry.
#[derive(Debug, PartialEq, Eq)]
pub struct Lesson {
    pub teacher_name: String,
    pub lesson_name: String,
    pub subject_name: String,
    pub is_alternative_lesson: bool,
    pub period_name: String,
    pub period_number: String,
    pub room_name: String,
    pub date: String,
    pub start_time: String,
    pub end_time: String,
    pub key: usize,
    pub note_abstract: String,
    pub note: String,
    pub pupil_note_abstract: String,
    pub pupil_note: String,
    pub pupil_note_raw: String,
}

/// Timetable metadata.
#[derive(Debug, PartialEq, Eq)]
pub struct LessonsMeta {
    pub dates: Vec<String>,
    pub timetable_dates: Vec<String>,
    pub start_time: String,
    pub end_time: String,
}

pub type LessonsData = Vec<Lesson>;

pub type Lessons = SuccessResponse<LessonsData, LessonsMeta>;

/// One timetable entry: an object carrying every [`Lesson`] field.
pub open spec fn spec_decode_lesson(v: JsonValue) -> Option<Lesson> {
    match v {
        JsonValue::Object(f) => {
            let fs = f@;
            if spec_field_string(fs, "teacher_name"@) is Some && spec_field_string(
                fs,
                "lesson_name"@,
            ) is Some && spec_field_string(fs, "subject_name"@) is Some && spec_field_bool(
                fs,
                "is_alternative_lesson"@,
            ) is Some && spec_field_string(fs, "period_name"@) is Some && spec_field_string(
                fs,
                "period_number"@,
            ) is Some && spec_field_string(fs, "room_name"@) is Some && spec_field_string(
                fs,
                "date"@,
            ) is Some && spec_field_string(fs, "start_time"@) is Some && spec_field_string(
                fs,
                "end_time"@,
            ) is Some && spec_field_usize(fs, "key"@) is Some && spec_field_string(
                fs,
                "note_abstract"@,
            ) is Some && spec_field_string(fs, "note"@) is Some && spec_field_string(
                fs,
                "pupil_note_abstract"@,
            ) is Some && spec_field_string(fs, "pupil_note"@) is Some && spec_field_string(
                fs,
                "pupil_note_raw"@,
            ) is Some {
                Some(
                    Lesson {
                        teacher_name: spec_field_string(fs, "teacher_name"@)->Some_0,
                        lesson_name: spec_field_string(fs, "lesson_name"@)->Some_0,
                        subject_name: spec_field_string(fs, "subject_name"@)->Some_0,
                        is_alternative_lesson: spec_field_bool(
                            fs,
                            "is_alternative_lesson"@,
                        )->Some_0,
                        period_name: spec_field_string(fs, "period_name"@)->Some_0,
                        period_number: spec_field_string(fs, "period_number"@)->Some_0,
                        room_name: spec_field_string(fs, "room_name"@)->Some_0,
                        date: spec_field_string(fs, "date"@)->Some_0,
                        start_time: spec_field_string(fs, "start_time"@)->Some_0,
                        end_time: spec_field_string(fs, "end_time"@)->Some_0,
                        key: spec_field_usize(fs, "key"@)->Some_0,
                        note_abstract: spec_field_string(fs, "note_abstract"@)->Some_0,
                        note: spec_field_string(fs, "note"@)->Some_0,
                        pupil_note_abstract: spec_field_string(fs, "pupil_note_abstract"@)->Some_0,
                        pupil_note: spec_field_string(fs, "pupil_note"@)->Some_0,
                        pupil_note_raw: spec_field_string(fs, "pupil_note_raw"@)->Some_0,
                    },
                )
            } else {
                None
            }
        },
        _ => None,
    }
}

/// Decodes one timetable entry.
#[verifier::rlimit(100)]
#[verifier::spinoff_prover]
pub fn decode_lesson(v: &JsonValue) -> (r: Option<Lesson>)
    ensures
        r == spec_decode_lesson(*v),
{
    let fields = match v {
        JsonValue::Object(f) => f,
        _ => { return None },
    };
    let teacher_name = match field_string(fields, "teacher_name") {
        Some(x) => x,
        None => { return None },
    };
    let lesson_name = match field_string(fields, "lesson_name") {
        Some(x) => x,
        None => { return None },
    };
    let subject_name = match field_string(fields, "subject_name") {
        Some(x) => x,
        None => { return None },
    };
    let is_alternative_lesson = match field_bool(fields, "is_alternative_lesson") {
        Some(x) => x,
        None => { return None },
    };
    let period_name = match field_string(fields, "period_name") {
        Some(x) => x,
        None => { return None },
    };
    let period_number = match field_string(fields, "period_number") {
        Some(x) => x,
        None => { return None },
    };
    let room_name = match field_string(fields, "room_name") {
        Some(x) => x,
        None => { return None },
    };
    let date = match field_string(fields, "date") {
        Some(x) => x,
        None => { return None },
    };
    let start_time = match field_string(fields, "start_time") {
        Some(x) => x,
        None => { return None },
    };
    let end_time = match field_string(fields, "end_time") {
        Some(x) => x,
        None => { return None },
    };
    let key = match field_usize(fields, "key") {
        Some(x) => x,
        None => { return None },
    };
    let note_abstract = match field_string(fields, "note_abstract") {
        Some(x) => x,
        None => { return None },
    };
    let note = match field_string(fields, "note") {
        Some(x) => x,
        None => { return None },
    };
    let pupil_note_abstract = match field_string(fields, "pupil_note_abstract") {
        Some(x) => x,
        None => { return None },
    };
    let pupil_note = match field_string(fields, "pupil_note") {
        Some(x) => x,
        None => { return None },
    };
    let pupil_note_raw = match field_string(fields, "pupil_note_raw") {
        Some(x) => x,
        None => { return None },
    };
    Some(
        Lesson {
            teacher_name,
            lesson_name,
            subject_name,
            is_alternative_lesson,
            period_name,
            period_number,
            room_name,
            date,
            start_time,
            end_time,
            key,
            note_abstract,
            note,
            pupil_note_abstract,
            pupil_note,
            pupil_note_raw,
        },
    )
}

/// The element decoder of the timetable, as a spec value.
pub open spec fn lesson_decoder() -> spec_fn(JsonValue) -> Option<Lesson> {
    |v: JsonValue| spec_decode_lesson(v)
}

/// Decodes the timetable entries.
pub fn decode_lessons(items: &Vec<JsonValue>) -> (r: Option<Vec<Lesson>>)
    ensures
        match r {
            Some(out) => spec_decode_seq(items@, lesson_decoder()) == Some(out@),
            None => spec_decode_seq(items@, lesson_decoder()) is None,
        },
{
    let mut out: Vec<Lesson> = Vec::new();
    let mut i: usize = 0;
    proof {
        assert(items@.take(0) =~= Seq::<JsonValue>::empty());
    }
    while i < items.len()
        invariant
            i <= items@.len(),
            spec_decode_seq(items@.take(i as int), lesson_decoder()) == Some(out@),
        decreases items@.len() - i,
    {
        match decode_lesson(&items[i]) {
            Some(l) => {
                out.push(l);
            },
            None => {
                proof {
                    lemma_decode_seq_fail(items@, lesson_decoder(), i as int);
                }
                return None;
            },
        }
        proof {
            lemma_decode_seq_step(items@, lesson_decoder(), i as int);
        }
        i = i + 1;
    }
    proof {
        assert(items@.take(items@.len() as int) =~= items@);
    }
    Some(out)
}

/// The timetable payload shape.
pub open spec fn spec_lessons_payload_ok(doc: JsonValue) -> bool {
    match doc {
        JsonValue::Object(fs) => match (obj_get(fs@, "data"@), obj_get(fs@, "meta"@)) {
            (Some(JsonValue::Array(items)), Some(JsonValue::Object(mfs))) => {
                &&& spec_decode_seq(items@, lesson_decoder()) is Some
                &&& spec_field_strings(mfs@, "dates"@) is Some
                &&& spec_field_strings(mfs@, "timetable_dates"@) is Some
                &&& spec_field_string(mfs@, "start_time"@) is Some
                &&& spec_field_string(mfs@, "end_time"@) is Some
            },
            _ => false,
        },
        _ => false,
    }
}

/// The typed reading of a timetable body.
pub open spec fn spec_lessons_payload_matches(resp: Lessons, doc: JsonValue) -> bool {
    match doc {
        JsonValue::Object(fs) => match (obj_get(fs@, "data"@), obj_get(fs@, "meta"@)) {
            (Some(JsonValue::Array(items)), Some(JsonValue::Object(mfs))) => {
                &&& spec_decode_seq(items@, lesson_decoder()) == Some(resp.data@)
                &&& spec_field_strings(mfs@, "dates"@) == Some(resp.meta.dates@)
                &&& spec_field_strings(mfs@, "timetable_dates"@) == Some(
                    resp.meta.timetable_dates@,
                )
                &&& spec_field_string(mfs@, "start_time"@) == Some(resp.meta.start_time)
                &&& spec_field_string(mfs@, "end_time"@) == Some(resp.meta.end_time)
            },
            _ => false,
        },
        _ => false,
    }
}

/// Interprets the body of a timetable response.
pub fn parse_lessons_response(text: &str) -> (r: Result<Lessons, ErrorResponse>)
    ensures
        match r {
            Ok(resp) => spec_classify(text@) is Ok && spec_lessons_payload_ok(
                json_of(text@)->Some_0,
            ) && spec_lessons_payload_matches(resp, json_of(text@)->Some_0),
            Err(e) => (spec_classify(text@) matches Err(e0) && e == e0) || (spec_classify(text@)
                is Ok && !spec_lessons_payload_ok(json_of(text@)->Some_0)
                && e == ErrorResponse::SerdeJsonParsingError),
        },
{
    let body = match cc_parse(text) {
        Ok(b) => b,
        Err(e) => { return Err(e) },
    };
    match parse_json(body.as_str()) {
        Some(JsonValue::Object(fields)) => {
            let items = match get_field(&fields, "data") {
                Some(JsonValue::Array(items)) => items,
                _ => { return Err(ErrorResponse::SerdeJsonParsingError) },
            };
            let mfs = match get_field(&fields, "meta") {
                Some(JsonValue::Object(mfs)) => mfs,
                _ => { return Err(ErrorResponse::SerdeJsonParsingError) },
            };
            let data = match decode_lessons(items) {
                Some(x) => x,
                None => { return Err(ErrorResponse::SerdeJsonParsingError) },
            };
            let dates = match field_strings(mfs, "dates") {
                Some(x) => x,
                None => { return Err(ErrorResponse::SerdeJsonParsingError) },
            };
            let timetable_dates = match field_strings(mfs, "timetable_dates") {
                Some(x) => x,
                None => { return Err(ErrorResponse::SerdeJsonParsingError) },
            };
            let start_time = match field_string(mfs, "start_time") {
                Some(x) => x,
                None => { return Err(ErrorResponse::SerdeJsonParsingError) },
            };
            let end_time = match field_string(mfs, "end_time") {
                Some(x) => x,
                None => { return Err(ErrorResponse::SerdeJsonParsingError) },
            };
            Ok(
                SuccessResponse {
                    data,
                    meta: LessonsMeta { dates, timetable_dates, start_time, end_time },
                },
            )
        },
        _ => Err(ErrorResponse::SerdeJsonParsingError),
    }
}

impl Client {
    /// Prepares the request for the student's lessons on a date.
    pub fn lessons_request(&self, date: &Date) -> (r: PreparedRequest)
        requires
            self.student_id@.len() > 0,
        ensures
            spec_authed_request(
                r,
                *self,
                Method::Get,
                "/timetable/"@ + self.student_id@ + "?"@ + form_pair_encoded(
                    "date"@,
                    date.spec_format(),
                ),
            ),
            r.content_type is None,
            r.body is None,
    {
        let formatted = date.format();
        let query = form_encode_pair("date", formatted.as_str());
        let mut path = String::from_str("/timetable/");
        path.append(self.student_id.as_str());
        path.append("?");
        path.append(query.as_str());
        self.build_get(path.as_str())
    }
}

} // verus!
