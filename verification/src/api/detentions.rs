//! Detentions: when, where, and for what.

use vstd::prelude::*;

use crate::api::helpers::{field_yes_no, spec_field_yes_no};
use crate::client::{spec_authed_request, Client, Method, PreparedRequest};
use crate::envelope::{cc_parse, spec_classify, SuccessResponse};
use crate::error::ErrorResponse;
use crate::json::{
    field_opt_string, field_opt_usize, field_string, field_usize, get_field, json_of,
    lemma_decode_seq_fail, lemma_decode_seq_step, obj_get, parse_json, spec_decode_seq,
    spec_field_opt_string, spec_field_opt_usize, spec_field_string, spec_field_usize, str_eq,
    JsonValue,
};

verus! {

/// Whether a detention was attended.
#[derive(Debug, PartialEq, Eq, Structural)]
pub enum DetentionAttended {
    Yes,
    No,
    Upscaled,
    Pending,
}

/// The school's note-visibility switches.
#[derive(Debug, PartialEq, Eq, Structural)]
pub struct School {
    pub opt_notes_names: bool,
    pub opt_notes_comments: bool,
    pub opt_notes_comments_pupils: bool,
}

/// The pupil a detention belongs to.
#[derive(Debug, PartialEq, Eq)]
pub struct Pupil {
    pub id: usize,
    pub first_name: String,
    pub last_name: String,
    pub school: School,
}

/// A subject.
#[derive(Debug, PartialEq, Eq)]
pub struct Subject {
    pub id: usize,
    pub name: String,
}

/// The lesson a detention was given in.
#[derive(Debug, PartialEq, Eq)]
pub struct Lesson {
    pub id: usize,
    pub name: String,
    pub subject: Subject,
}

/// The behaviour that led to the detention.
#[derive(Debug, PartialEq, Eq)]
pub struct LessonPupilBehaviour {
    pub reason: String,
}

/// The teacher who gave the detention.
#[derive(Debug, PartialEq, Eq)]
pub struct Teacher {
    pub id: usize,
    pub first_name: String,
    pub last_name: String,
    pub title: String,
}

/// The kind of detention.
#[derive(Debug, PartialEq, Eq)]
pub struct DetentionType {
    pub name: String,
}

/// One detention.
#[derive(Debug, PartialEq, Eq)]
pub struct Detention {
    pub id: usize,
    pub attended: DetentionAttended,
    pub date: Option<String>,
    pub length: Option<usize>,
    pub location: Option<String>,
    pub notes: Option<String>,
    pub time: Option<String>,
    pub pupil: Pupil,
    pub lesson: Option<Lesson>,
    pub lesson_pupil_behaviour: LessonPupilBehaviour,
    pub teacher: Option<Teacher>,
    pub detention_type: DetentionType,
}

pub type DetentionsData = Vec<Detention>;

/// Detentions metadata.
#[derive(Debug, PartialEq, Eq)]
pub struct DetentionsMeta {
    pub detention_alias_plural: String,
}

pub type Detentions = SuccessResponse<DetentionsData, DetentionsMeta>;

/// The attendance marker of a detention.
pub open spec fn spec_decode_attended(v: JsonValue) -> Option<DetentionAttended> {
    match v {
        JsonValue::Str(s) => if s@ == "yes"@ {
            Some(DetentionAttended::Yes)
        } else if s@ == "no"@ {
            Some(DetentionAttended::No)
        } else if s@ == "upscaled"@ {
            Some(DetentionAttended::Upscaled)
        } else if s@ == "pending"@ {
            Some(DetentionAttended::Pending)
        } else {
            None
        },
        _ => None,
    }
}

/// Decodes the attendance marker.
pub fn decode_attended(v: &JsonValue) -> (r: Option<DetentionAttended>)
    ensures
        r == spec_decode_attended(*v),
{
    match v {
        JsonValue::Str(s) => if str_eq(s.as_str(), "yes") {
            Some(DetentionAttended::Yes)
        } else if str_eq(s.as_str(), "no") {
            Some(DetentionAttended::No)
        } else if str_eq(s.as_str(), "upscaled") {
            Some(DetentionAttended::Upscaled)
        } else if str_eq(s.as_str(), "pending") {
            Some(DetentionAttended::Pending)
        } else {
            None
        },
        _ => None,
    }
}

/// A school record: three yes/no note switches.
pub open spec fn spec_decode_school(v: JsonValue) -> Option<School> {
    match v {
        JsonValue::Object(f) => {
            let fs = f@;
            if spec_field_yes_no(fs, "opt_notes_names"@) is Some && spec_field_yes_no(
                fs,
                "opt_notes_comments"@,
            ) is Some && spec_field_yes_no(fs, "opt_notes_comments_pupils"@) is Some {
                Some(
                    School {
                        opt_notes_names: spec_field_yes_no(fs, "opt_notes_names"@)->Some_0,
                        opt_notes_comments: spec_field_yes_no(fs, "opt_notes_comments"@)->Some_0,
                        opt_notes_comments_pupils: spec_field_yes_no(
                            fs,
                            "opt_notes_comments_pupils"@,
                        )->Some_0,
                    },
                )
            } else {
                None
            }
        },
        _ => None,
    }
}

/// Decodes a school record.
pub fn decode_school(v: &JsonValue) -> (r: Option<School>)
    ensures
        r == spec_decode_school(*v),
{
    let fields = match v {
        JsonValue::Object(f) => f,
        _ => { return None },
    };
    let opt_notes_names = match field_yes_no(fields, "opt_notes_names") {
        Some(x) => x,
        None => { return None },
    };
    let opt_notes_comments = match field_yes_no(fields, "opt_notes_comments") {
        Some(x) => x,
        None => { return None },
    };
    let opt_notes_comments_pupils = match field_yes_no(fields, "opt_notes_comments_pupils") {
        Some(x) => x,
        None => { return None },
    };
    Some(School { opt_notes_names, opt_notes_comments, opt_notes_comments_pupils })
}

/// A pupil record.
pub open spec fn spec_decode_pupil(v: JsonValue) -> Option<Pupil> {
    match v {
        JsonValue::Object(f) => {
            let fs = f@;
            if spec_field_usize(fs, "id"@) is Some && spec_field_string(fs, "first_name"@) is Some
                && spec_field_string(fs, "last_name"@) is Some && (match obj_get(fs, "school"@) {
                Some(sv) => spec_decode_school(sv) is Some,
                None => false,
            }) {
                Some(
                    Pupil {
                        id: spec_field_usize(fs, "id"@)->Some_0,
                        first_name: spec_field_string(fs, "first_name"@)->Some_0,
                        last_name: spec_field_string(fs, "last_name"@)->Some_0,
                        school: spec_decode_school(obj_get(fs, "school"@)->Some_0)->Some_0,
                    },
                )
            } else {
                None
            }
        },
        _ => None,
    }
}

/// Decodes a pupil record.
pub fn decode_pupil(v: &JsonValue) -> (r: Option<Pupil>)
    ensures
        r == spec_decode_pupil(*v),
{
    let fields = match v {
        JsonValue::Object(f) => f,
        _ => { return None },
    };
    let id = match field_usize(fields, "id") {
        Some(x) => x,
        None => { return None },
    };
    let first_name = match field_string(fields, "first_name") {
        Some(x) => x,
        None => { return None },
    };
    let last_name = match field_string(fields, "last_name") {
        Some(x) => x,
        None => { return None },
    };
    let sv = match get_field(fields, "school") {
        Some(x) => x,
        None => { return None },
    };
    let school = match decode_school(sv) {
        Some(x) => x,
        None => { return None },
    };
    Some(Pupil { id, first_name, last_name, school })
}

/// A lesson record with its subject.
pub open spec fn spec_decode_lesson(v: JsonValue) -> Option<Lesson> {
    match v {
        JsonValue::Object(f) => {
            let fs = f@;
            if spec_field_usize(fs, "id"@) is Some && spec_field_string(fs, "name"@) is Some && (
            match obj_get(fs, "subject"@) {
                Some(sv) => match sv {
                    JsonValue::Object(sf) => spec_field_usize(sf@, "id"@) is Some
                        && spec_field_string(sf@, "name"@) is Some,
                    _ => false,
                },
                None => false,
            }) {
                Some(
                    Lesson {
                        id: spec_field_usize(fs, "id"@)->Some_0,
                        name: spec_field_string(fs, "name"@)->Some_0,
                        subject: Subject {
                            id: spec_field_usize(
                                obj_get(fs, "subject"@)->Some_0->Object_0@,
                                "id"@,
                            )->Some_0,
                            name: spec_field_string(
                                obj_get(fs, "subject"@)->Some_0->Object_0@,
                                "name"@,
                            )->Some_0,
                        },
                    },
                )
            } else {
                None
            }
        },
        _ => None,
    }
}

/// Decodes a lesson record.
pub fn decode_lesson(v: &JsonValue) -> (r: Option<Lesson>)
    ensures
        r == spec_decode_lesson(*v),
{
    let fields = match v {
        JsonValue::Object(f) => f,
        _ => { return None },
    };
    let id = match field_usize(fields, "id") {
        Some(x) => x,
        None => { return None },
    };
    let name = match field_string(fields, "name") {
        Some(x) => x,
        None => { return None },
    };
    let sf = match get_field(fields, "subject") {
        Some(JsonValue::Object(sf)) => sf,
        _ => { return None },
    };
    let subject_id = match field_usize(sf, "id") {
        Some(x) => x,
        None => { return None },
    };
    let subject_name = match field_string(sf, "name") {
        Some(x) => x,
        None => { return None },
    };
    Some(Lesson { id, name, subject: Subject { id: subject_id, name: subject_name } })
}

/// A teacher record.
pub open spec fn spec_decode_teacher(v: JsonValue) -> Option<Teacher> {
    match v {
        JsonValue::Object(f) => {
            let fs = f@;
            if spec_field_usize(fs, "id"@) is Some && spec_field_string(fs, "first_name"@) is Some
                && spec_field_string(fs, "last_name"@) is Some && spec_field_string(
                fs,
                "title"@,
            ) is Some {
                Some(
                    Teacher {
                        id: spec_field_usize(fs, "id"@)->Some_0,
                        first_name: spec_field_string(fs, "first_name"@)->Some_0,
                        last_name: spec_field_string(fs, "last_name"@)->Some_0,
                        title: spec_field_string(fs, "title"@)->Some_0,
                    },
                )
            } else {
                None
            }
        },
        _ => None,
    }
}

/// Decodes a teacher record.
pub fn decode_teacher(v: &JsonValue) -> (r: Option<Teacher>)
    ensures
        r == spec_decode_teacher(*v),
{
    let fields = match v {
        JsonValue::Object(f) => f,
        _ => { return None },
    };
    let id = match field_usize(fields, "id") {
        Some(x) => x,
        None => { return None },
    };
    let first_name = match field_string(fields, "first_name") {
        Some(x) => x,
        None => { return None },
    };
    let last_name = match field_string(fields, "last_name") {
        Some(x) => x,
        None => { return None },
    };
    let title = match field_string(fields, "title") {
        Some(x) => x,
        None => { return None },
    };
    Some(Teacher { id, first_name, last_name, title })
}

/// An optional lesson field: absent or `null` decodes to `None`.
pub open spec fn spec_field_opt_lesson(fields: Seq<(String, JsonValue)>, key: Seq<char>) -> Option<
    Option<Lesson>,
> {
    match obj_get(fields, key) {
        None => Some(None),
        Some(JsonValue::Null) => Some(None),
        Some(v) => match spec_decode_lesson(v) {
            Some(l) => Some(Some(l)),
            None => None,
        },
    }
}

fn field_opt_lesson(fields: &Vec<(String, JsonValue)>, key: &str) -> (r: Option<Option<Lesson>>)
    ensures
        r == spec_field_opt_lesson(fields@, key@),
{
    match get_field(fields, key) {
        None => Some(None),
        Some(JsonValue::Null) => Some(None),
        Some(v) => match decode_lesson(v) {
            Some(l) => Some(Some(l)),
            None => None,
        },
    }
}

/// An optional teacher field: absent or `null` decodes to `None`.
pub open spec fn spec_field_opt_teacher(
    fields: Seq<(String, JsonValue)>,
    key: Seq<char>,
) -> Option<Option<Teacher>> {
    match obj_get(fields, key) {
        None => Some(None),
        Some(JsonValue::Null) => Some(None),
        Some(v) => match spec_decode_teacher(v) {
            Some(t) => Some(Some(t)),
            None => None,
        },
    }
}

fn field_opt_teacher(fields: &Vec<(String, JsonValue)>, key: &str) -> (r: Option<Option<Teacher>>)
    ensures
        r == spec_field_opt_teacher(fields@, key@),
{
    match get_field(fields, key) {
        None => Some(None),
        Some(JsonValue::Null) => Some(None),
        Some(v) => match decode_teacher(v) {
            Some(t) => Some(Some(t)),
            None => None,
        },
    }
}

/// One detention: an object carrying every [`Detention`] field.
pub open spec fn spec_decode_detention(v: JsonValue) -> Option<Detention> {
    match v {
        JsonValue::Object(f) => {
            let fs = f@;
            if spec_field_usize(fs, "id"@) is Some && (match obj_get(fs, "attended"@) {
                Some(av) => spec_decode_attended(av) is Some,
                None => false,
            }) && spec_field_opt_string(fs, "date"@) is Some && spec_field_opt_usize(
                fs,
                "length"@,
            ) is Some && spec_field_opt_string(fs, "location"@) is Some && spec_field_opt_string(
                fs,
                "notes"@,
            ) is Some && spec_field_opt_string(fs, "time"@) is Some && (match obj_get(
                fs,
                "pupil"@,
            ) {
                Some(pv) => spec_decode_pupil(pv) is Some,
                None => false,
            }) && spec_field_opt_lesson(fs, "lesson"@) is Some && (match obj_get(
                fs,
                "lesson_pupil_behaviour"@,
            ) {
                Some(bv) => match bv {
                    JsonValue::Object(bf) => spec_field_string(bf@, "reason"@) is Some,
                    _ => false,
                },
                None => false,
            }) && spec_field_opt_teacher(fs, "teacher"@) is Some && (match obj_get(
                fs,
                "detention_type"@,
            ) {
                Some(tv) => match tv {
                    JsonValue::Object(tf) => spec_field_string(tf@, "name"@) is Some,
                    _ => false,
                },
                None => false,
            }) {
                Some(
                    Detention {
                        id: spec_field_usize(fs, "id"@)->Some_0,
                        attended: spec_decode_attended(obj_get(fs, "attended"@)->Some_0)->Some_0,
                        date: spec_field_opt_string(fs, "date"@)->Some_0,
                        length: spec_field_opt_usize(fs, "length"@)->Some_0,
                        location: spec_field_opt_string(fs, "location"@)->Some_0,
                        notes: spec_field_opt_string(fs, "notes"@)->Some_0,
                        time: spec_field_opt_string(fs, "time"@)->Some_0,
                        pupil: spec_decode_pupil(obj_get(fs, "pupil"@)->Some_0)->Some_0,
                        lesson: spec_field_opt_lesson(fs, "lesson"@)->Some_0,
                        lesson_pupil_behaviour: LessonPupilBehaviour {
                            reason: spec_field_string(
                                obj_get(fs, "lesson_pupil_behaviour"@)->Some_0->Object_0@,
                                "reason"@,
                            )->Some_0,
                        },
                        teacher: spec_field_opt_teacher(fs, "teacher"@)->Some_0,
                        detention_type: DetentionType {
                            name: spec_field_string(
                                obj_get(fs, "detention_type"@)->Some_0->Object_0@,
                                "name"@,
                            )->Some_0,
                        },
                    },
                )
            } else {
                None
            }
        },
        _ => None,
    }
}

/// Decodes one detention.
#[verifier::rlimit(100)]
#[verifier::spinoff_prover]
pub fn decode_detention(v: &JsonValue) -> (r: Option<Detention>)
    ensures
        r == spec_decode_detention(*v),
{
    let fields = match v {
        JsonValue::Object(f) => f,
        _ => { return None },
    };
    let id = match field_usize(fields, "id") {
        Some(x) => x,
        None => { return None },
    };
    let av = match get_field(fields, "attended") {
        Some(x) => x,
        None => { return None },
    };
    let attended = match decode_attended(av) {
        Some(x) => x,
        None => { return None },
    };
    let date = match field_opt_string(fields, "date") {
        Some(x) => x,
        None => { return None },
    };
    let length = match field_opt_usize(fields, "length") {
        Some(x) => x,
        None => { return None },
    };
    let location = match field_opt_string(fields, "location") {
        Some(x) => x,
        None => { return None },
    };
    let notes = match field_opt_string(fields, "notes") {
        Some(x) => x,
        None => { return None },
    };
    let time = match field_opt_string(fields, "time") {
        Some(x) => x,
        None => { return None },
    };
    let pv = match get_field(fields, "pupil") {
        Some(x) => x,
        None => { return None },
    };
    let pupil = match decode_pupil(pv) {
        Some(x) => x,
        None => { return None },
    };
    let lesson = match field_opt_lesson(fields, "lesson") {
        Some(x) => x,
        None => { return None },
    };
    let bf = match get_field(fields, "lesson_pupil_behaviour") {
        Some(JsonValue::Object(bf)) => bf,
        _ => { return None },
    };
    let reason = match field_string(bf, "reason") {
        Some(x) => x,
        None => { return None },
    };
    let teacher = match field_opt_teacher(fields, "teacher") {
        Some(x) => x,
        None => { return None },
    };
    let tf = match get_field(fields, "detention_type") {
        Some(JsonValue::Object(tf)) => tf,
        _ => { return None },
    };
    let kind_name = match field_string(tf, "name") {
        Some(x) => x,
        None => { return None },
    };
    Some(
        Detention {
            id,
            attended,
            date,
            length,
            location,
            notes,
            time,
            pupil,
            lesson,
            lesson_pupil_behaviour: LessonPupilBehaviour { reason },
            teacher,
            detention_type: DetentionType { name: kind_name },
        },
    )
}

/// The element decoder of the detention list, as a spec value.
pub open spec fn detention_decoder() -> spec_fn(JsonValue) -> Option<Detention> {
    |v: JsonValue| spec_decode_detention(v)
}

/// Decodes the detention list.
pub fn decode_detentions(items: &Vec<JsonValue>) -> (r: Option<Vec<Detention>>)
    ensures
        match r {
            Some(out) => spec_decode_seq(items@, detention_decoder()) == Some(out@),
            None => spec_decode_seq(items@, detention_decoder()) is None,
        },
{
    let mut out: Vec<Detention> = Vec::new();
    let mut i: usize = 0;
    proof {
        assert(items@.take(0) =~= Seq::<JsonValue>::empty());
    }
    while i < items.len()
        invariant
            i <= items@.len(),
            spec_decode_seq(items@.take(i as int), detention_decoder()) == Some(out@),
        decreases items@.len() - i,
    {
        match decode_detention(&items[i]) {
            Some(d) => {
                out.push(d);
            },
            None => {
                proof {
                    lemma_decode_seq_fail(items@, detention_decoder(), i as int);
                }
                return None;
            },
        }
        proof {
            lemma_decode_seq_step(items@, detention_decoder(), i as int);
        }
        i = i + 1;
    }
    proof {
        assert(items@.take(items@.len() as int) =~= items@);
    }
    Some(out)
}

/// The detentions payload shape.
pub open spec fn spec_detentions_payload_ok(doc: JsonValue) -> bool {
    match doc {
        JsonValue::Object(fs) => match (obj_get(fs@, "data"@), obj_get(fs@, "meta"@)) {
            (Some(JsonValue::Array(items)), Some(mv)) => spec_decode_seq(
                items@,
                detention_decoder(),
            ) is Some && (match mv {
                JsonValue::Object(mf) => spec_field_string(mf@, "detention_alias_plural"@)
                    is Some,
                _ => false,
            }),
            _ => false,
        },
        _ => false,
    }
}

/// The typed reading of a detentions body.
pub open spec fn spec_detentions_payload_matches(resp: Detentions, doc: JsonValue) -> bool {
    match doc {
        JsonValue::Object(fs) => match (obj_get(fs@, "data"@), obj_get(fs@, "meta"@)) {
            (Some(JsonValue::Array(items)), Some(mv)) => spec_decode_seq(
                items@,
                detention_decoder(),
            ) == Some(resp.data@) && (match mv {
                JsonValue::Object(mf) => spec_field_string(mf@, "detention_alias_plural"@)
                    == Some(resp.meta.detention_alias_plural),
                _ => false,
            }),
            _ => false,
        },
        _ => false,
    }
}

/// Interprets the body of a detentions response.
pub fn parse_detentions_response(text: &str) -> (r: Result<Detentions, ErrorResponse>)
    ensures
        match r {
            Ok(resp) => spec_classify(text@) is Ok && spec_detentions_payload_ok(
                json_of(text@)->Some_0,
            ) && spec_detentions_payload_matches(resp, json_of(text@)->Some_0),
            Err(e) => (spec_classify(text@) matches Err(e0) && e == e0) || (spec_classify(text@)
                is Ok && !spec_detentions_payload_ok(json_of(text@)->Some_0)
                && e == ErrorResponse::SerdeJsonParsingError),
        },
{
    let body = match cc_parse(text) {
        Ok(b) => b,
        Err(e) => { return Err(e) },
    };
    match parse_json(body.as_str()) {
        Some(JsonValue::Object(fields)) => {
            let items = match get_field(&fields, "data") {
                Some(JsonValue::Array(items)) => items,
                _ => { return Err(ErrorResponse::SerdeJsonParsingError) },
            };
            let mf = match get_field(&fields, "meta") {
                Some(JsonValue::Object(mf)) => mf,
                _ => { return Err(ErrorResponse::SerdeJsonParsingError) },
            };
            let data = match decode_detentions(items) {
                Some(x) => x,
                None => { return Err(ErrorResponse::SerdeJsonParsingError) },
            };
            let detention_alias_plural = match field_string(mf, "detention_alias_plural") {
                Some(x) => x,
                None => { return Err(ErrorResponse::SerdeJsonParsingError) },
            };
            Ok(SuccessResponse { data, meta: DetentionsMeta { detention_alias_plural } })
        },
        _ => Err(ErrorResponse::SerdeJsonParsingError),
    }
}

impl Client {
    /// Prepares the request for the student's detentions.
    pub fn detentions_request(&self) -> (r: PreparedRequest)
        requires
            self.student_id@.len() > 0,
        ensures
            spec_authed_request(r, *self, Method::Get, "/detentions/"@ + self.student_id@),
            r.content_type is None,
            r.body is None,
    {
        let mut path = String::from_str("/detentions/");
        path.append(self.student_id.as_str());
        self.build_get(path.as_str())
    }
}

} // verus!
