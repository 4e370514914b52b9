//! Event badges the student has earned.

use vstd::prelude::*;

use crate::api::helpers::{decode_empties, empty_decoder, Empty};
use crate::client::{spec_authed_request, Client, Method, PreparedRequest};
use crate::envelope::{cc_parse, spec_classify, SuccessResponse};
use crate::error::ErrorResponse;
use crate::json::{
    field_string, field_usize, get_field, json_of, obj_get, parse_json, spec_decode_seq,
    spec_field_string, spec_field_usize, JsonValue,
};

verus! {

/// The teacher who awarded a behaviour point.
#[derive(Debug, PartialEq, Eq)]
pub struct Teacher {
    pub title: String,
    pub first_name: String,
    pub last_name: String,
}

/// The behaviour point behind a badge.
#[derive(Debug, PartialEq, Eq)]
pub struct LessonPupilBehaviour {
    pub reason: String,
    pub score: usize,
    pub polarity: String,
    pub timestamp: String,
    pub teacher: Teacher,
}

/// The event a badge belongs to.
#[derive(Debug, PartialEq, Eq)]
pub struct PupilEvent {
    pub label: String,
}

/// One earning of a badge.
#[derive(Debug, PartialEq, Eq)]
pub struct PupilBadge {
    pub timestamp: String,
    pub lesson_pupil_behaviour: LessonPupilBehaviour,
    pub event: PupilEvent,
}

/// One badge, with every earning of it.
#[derive(Debug, PartialEq, Eq)]
pub struct Badge {
    pub id: usize,
    pub name: String,
    pub icon: String,
    pub colour: String,
    pub created_date: String,
    pub pupil_badges: Vec<PupilBadge>,
    pub icon_url: String,
}

pub type BadgesData = Vec<Badge>;

pub type BadgesMeta = Vec<Empty>;

pub type Badges = SuccessResponse<BadgesData, BadgesMeta>;

/// A teacher record.
pub open spec fn spec_decode_teacher(v: JsonValue) -> Option<Teacher> {
    match v {
        JsonValue::Object(f) => {
            let fs = f@;
            if spec_field_string(fs, "title"@) is Some && spec_field_string(
                fs,
                "first_name"@,
            ) is Some && spec_field_string(fs, "last_name"@) is Some {
                Some(
                    Teacher {
                        title: spec_field_string(fs, "title"@)->Some_0,
                        first_name: spec_field_string(fs, "first_name"@)->Some_0,
                        last_name: spec_field_string(fs, "last_name"@)->Some_0,
                    },
                )
            } else {
                None
            }
        },
        _ => None,
    }
}

/// Decodes a teacher record.
pub fn decode_teacher(v: &JsonValue) -> (r: Option<Teacher>)
    ensures
        r == spec_decode_teacher(*v),
{
    let fields = match v {
        JsonValue::Object(f) => f,
        _ => { return None },
    };
    let title = match field_string(fields, "title") {
        Some(x) => x,
        None => { return None },
    };
    let first_name = match field_string(fields, "first_name") {
        Some(x) => x,
        None => { return None },
    };
    let last_name = match field_string(fields, "last_name") {
        Some(x) => x,
        None => { return None },
    };
    Some(Teacher { title, first_name, last_name })
}

/// The behaviour point behind a badge.
pub open spec fn spec_decode_lesson_pupil_behaviour(v: JsonValue) -> Option<
    LessonPupilBehaviour,
> {
    match v {
        JsonValue::Object(f) => {
            let fs = f@;
            if spec_field_string(fs, "reason"@) is Some && spec_field_usize(fs, "score"@) is Some
                && spec_field_string(fs, "polarity"@) is Some && spec_field_string(
                fs,
                "timestamp"@,
            ) is Some && (match obj_get(fs, "teacher"@) {
                Some(tv) => spec_decode_teacher(tv) is Some,
                None => false,
            }) {
                Some(
                    LessonPupilBehaviour {
                        reason: spec_field_string(fs, "reason"@)->Some_0,
                        score: spec_field_usize(fs, "score"@)->Some_0,
                        polarity: spec_field_string(fs, "polarity"@)->Some_0,
                        timestamp: spec_field_string(fs, "timestamp"@)->Some_0,
                        teacher: spec_decode_teacher(obj_get(fs, "teacher"@)->Some_0)->Some_0,
                    },
                )
            } else {
                None
            }
        },
        _ => None,
    }
}

/// Decodes the behaviour point behind a badge.
pub fn decode_lesson_pupil_behaviour(v: &JsonValue) -> (r: Option<LessonPupilBehaviour>)
    ensures
        r == spec_decode_lesson_pupil_behaviour(*v),
{
    let fields = match v {
        JsonValue::Object(f) => f,
        _ => { return None },
    };
    let reason = match field_string(fields, "reason") {
        Some(x) => x,
        None => { return None },
    };
    let score = match field_usize(fields, "score") {
        Some(x) => x,
        None => { return None },
    };
    let polarity = match field_string(fields, "polarity") {
        Some(x) => x,
        None => { return None },
    };
    let timestamp = match field_string(fields, "timestamp") {
        Some(x) => x,
        None => { return None },
    };
    let teacher_value = match get_field(fields, "teacher") {
        Some(x) => x,
        None => { return None },
    };
    let teacher = match decode_teacher(teacher_value) {
        Some(x) => x,
        None => { return None },
    };
    Some(LessonPupilBehaviour { reason, score, polarity, timestamp, teacher })
}

/// One earning of a badge.
pub open spec fn spec_decode_pupil_badge(v: JsonValue) -> Option<PupilBadge> {
    match v {
        JsonValue::Object(f) => {
            let fs = f@;
            if spec_field_string(fs, "timestamp"@) is Some && (match obj_get(
                fs,
                "lesson_pupil_behaviour"@,
            ) {
                Some(bv) => spec_decode_lesson_pupil_behaviour(bv) is Some,
                None => false,
            }) && (match obj_get(fs, "event"@) {
                Some(ev) => match ev {
                    JsonValue::Object(ef) => spec_field_string(ef@, "label"@) is Some,
                    _ => false,
                },
                None => false,
            }) {
                Some(
                    PupilBadge {
                        timestamp: spec_field_string(fs, "timestamp"@)->Some_0,
                        lesson_pupil_behaviour: spec_decode_lesson_pupil_behaviour(
                            obj_get(fs, "lesson_pupil_behaviour"@)->Some_0,
                        )->Some_0,
                        event: PupilEvent {
                            label: spec_field_string(
                                obj_get(fs, "event"@)->Some_0->Object_0@,
                                "label"@,
                            )->Some_0,
                        },
                    },
                )
            } else {
                None
            }
        },
        _ => None,
    }
}

/// Decodes one earning of a badge.
pub fn decode_pupil_badge(v: &JsonValue) -> (r: Option<PupilBadge>)
    ensures
        r == spec_decode_pupil_badge(*v),
{
    let fields = match v {
        JsonValue::Object(f) => f,
        _ => { return None },
    };
    let timestamp = match field_string(fields, "timestamp") {
        Some(x) => x,
        None => { return None },
    };
    let bv = match get_field(fields, "lesson_pupil_behaviour") {
        Some(x) => x,
        None => { return None },
    };
    let lesson_pupil_behaviour = match decode_lesson_pupil_behaviour(bv) {
        Some(x) => x,
        None => { return None },
    };
    let ef = match get_field(fields, "event") {
        Some(JsonValue::Object(ef)) => ef,
        _ => { return None },
    };
    let label = match field_string(ef, "label") {
        Some(x) => x,
        None => { return None },
    };
    Some(PupilBadge { timestamp, lesson_pupil_behaviour, event: PupilEvent { label } })
}

/// A badge's shape: scalar fields plus an array of earnings.
pub open spec fn spec_badge_ok(v: JsonValue) -> bool {
    match v {
        JsonValue::Object(f) => {
            let fs = f@;
            &&& spec_field_usize(fs, "id"@) is Some
            &&& spec_field_string(fs, "name"@) is Some
            &&& spec_field_string(fs, "icon"@) is Some
            &&& spec_field_string(fs, "colour"@) is Some
            &&& spec_field_string(fs, "created_date"@) is Some
            &&& spec_field_string(fs, "icon_url"@) is Some
            &&& match obj_get(fs, "pupil_badges"@) {
                Some(JsonValue::Array(items)) => spec_decode_seq(
                    items@,
                    pupil_badge_decoder(),
                ) is Some,
                _ => false,
            }
        },
        _ => false,
    }
}

/// The typed reading of a badge.
pub open spec fn spec_badge_matches(b: Badge, v: JsonValue) -> bool {
    match v {
        JsonValue::Object(f) => {
            let fs = f@;
            &&& spec_field_usize(fs, "id"@) == Some(b.id)
            &&& spec_field_string(fs, "name"@) == Some(b.name)
            &&& spec_field_string(fs, "icon"@) == Some(b.icon)
            &&& spec_field_string(fs, "colour"@) == Some(b.colour)
            &&& spec_field_string(fs, "created_date"@) == Some(b.created_date)
            &&& spec_field_string(fs, "icon_url"@) == Some(b.icon_url)
            &&& match obj_get(fs, "pupil_badges"@) {
                Some(JsonValue::Array(items)) => spec_decode_seq(items@, pupil_badge_decoder())
                    == Some(b.pupil_badges@),
                _ => false,
            }
        },
        _ => false,
    }
}

/// The element decoder of a badge's earnings, as a spec value.
pub open spec fn pupil_badge_decoder() -> spec_fn(JsonValue) -> Option<PupilBadge> {
    |v: JsonValue| spec_decode_pupil_badge(v)
}

/// Decodes a badge's earnings.
pub fn decode_pupil_badges(items: &Vec<JsonValue>) -> (r: Option<Vec<PupilBadge>>)
    ensures
        match r {
            Some(out) => spec_decode_seq(items@, pupil_badge_decoder()) == Some(out@),
            None => spec_decode_seq(items@, pupil_badge_decoder()) is None,
        },
{
    let mut out: Vec<PupilBadge> = Vec::new();
    let mut i: usize = 0;
    proof {
        assert(items@.take(0) =~= Seq::<JsonValue>::empty());
    }
    while i < items.len()
        invariant
            i <= items@.len(),
            spec_decode_seq(items@.take(i as int), pupil_badge_decoder()) == Some(out@),
        decreases items@.len() - i,
    {
        match decode_pupil_badge(&items[i]) {
            Some(p) => {
                out.push(p);
            },
            None => {
                proof {
                    crate::json::lemma_decode_seq_fail(items@, pupil_badge_decoder(), i as int);
                }
                return None;
            },
        }
        proof {
            crate::json::lemma_decode_seq_step(items@, pupil_badge_decoder(), i as int);
        }
        i = i + 1;
    }
    proof {
        assert(items@.take(items@.len() as int) =~= items@);
    }
    Some(out)
}

/// Decodes one badge.
pub fn decode_badge(v: &JsonValue) -> (r: Option<Badge>)
    ensures
        match r {
            Some(b) => spec_badge_ok(*v) && spec_badge_matches(b, *v),
            None => !spec_badge_ok(*v),
        },
{
    let fields = match v {
        JsonValue::Object(f) => f,
        _ => { return None },
    };
    let id = match field_usize(fields, "id") {
        Some(x) => x,
        None => { return None },
    };
    let name = match field_string(fields, "name") {
        Some(x) => x,
        None => { return None },
    };
    let icon = match field_string(fields, "icon") {
        Some(x) => x,
        None => { return None },
    };
    let colour = match field_string(fields, "colour") {
        Some(x) => x,
        None => { return None },
    };
    let created_date = match field_string(fields, "created_date") {
        Some(x) => x,
        None => { return None },
    };
    let icon_url = match field_string(fields, "icon_url") {
        Some(x) => x,
        None => { return None },
    };
    let badge_items = match get_field(fields, "pupil_badges") {
        Some(JsonValue::Array(items)) => items,
        _ => { return None },
    };
    let pupil_badges = match decode_pupil_badges(badge_items) {
        Some(x) => x,
        None => { return None },
    };
    Some(Badge { id, name, icon, colour, created_date, pupil_badges, icon_url })
}

/// The badges payload shape: every element of `data` is a badge, and
/// `meta` is an array of empty objects.
pub open spec fn spec_badges_payload_ok(doc: JsonValue) -> bool {
    match doc {
        JsonValue::Object(fs) => match (obj_get(fs@, "data"@), obj_get(fs@, "meta"@)) {
            (Some(JsonValue::Array(items)), Some(JsonValue::Array(mitems))) => {
                &&& forall|i: int| 0 <= i < items@.len() ==> spec_badge_ok(#[trigger] items@[i])
                &&& spec_decode_seq(mitems@, empty_decoder()) is Some
            },
            _ => false,
        },
        _ => false,
    }
}

/// The typed reading of a badges body.
pub open spec fn spec_badges_payload_matches(resp: Badges, doc: JsonValue) -> bool {
    match doc {
        JsonValue::Object(fs) => match (obj_get(fs@, "data"@), obj_get(fs@, "meta"@)) {
            (Some(JsonValue::Array(items)), Some(JsonValue::Array(mitems))) => {
                &&& resp.data@.len() == items@.len()
                &&& forall|i: int|
                    0 <= i < items@.len() ==> spec_badge_matches(
                        #[trigger] resp.data@[i],
                        items@[i],
                    )
                &&& spec_decode_seq(mitems@, empty_decoder()) == Some(resp.meta@)
            },
            _ => false,
        },
        _ => false,
    }
}

/// Interprets the body of a badges response.
pub fn parse_badges_response(text: &str) -> (r: Result<Badges, ErrorResponse>)
    ensures
        match r {
            Ok(resp) => spec_classify(text@) is Ok && spec_badges_payload_ok(
                json_of(text@)->Some_0,
            ) && spec_badges_payload_matches(resp, json_of(text@)->Some_0),
            Err(e) => (spec_classify(text@) matches Err(e0) && e == e0) || (spec_classify(text@)
                is Ok && !spec_badges_payload_ok(json_of(text@)->Some_0)
                && e == ErrorResponse::SerdeJsonParsingError),
        },
{
    let body = match cc_parse(text) {
        Ok(b) => b,
        Err(e) => { return Err(e) },
    };
    match parse_json(body.as_str()) {
        Some(JsonValue::Object(fields)) => {
            let items = match get_field(&fields, "data") {
                Some(JsonValue::Array(items)) => items,
                _ => { return Err(ErrorResponse::SerdeJsonParsingError) },
            };
            let mitems = match get_field(&fields, "meta") {
                Some(JsonValue::Array(mitems)) => mitems,
                _ => { return Err(ErrorResponse::SerdeJsonParsingError) },
            };
            let mut data: Vec<Badge> = Vec::new();
            let mut i: usize = 0;
            #[verifier::loop_isolation(false)]
            while i < items.len()
                invariant
                    i <= items@.len(),
                    data@.len() == i,
                    forall|j: int| 0 <= j < i ==> spec_badge_ok(#[trigger] items@[j]),
                    forall|j: int|
                        0 <= j < i ==> spec_badge_matches(#[trigger] data@[j], items@[j]),
                decreases items@.len() - i,
            {
                let ghost pre = data@;
                match decode_badge(&items[i]) {
                    Some(b) => {
                        data.push(b);
                        proof {
                            assert(data@ == pre.push(b));
                            assert(data@[i as int] == b);
                            assert(forall|j: int| 0 <= j < i ==> #[trigger] data@[j] == pre[j]);
                        }
                    },
                    None => {
                        proof {
                            if spec_badges_payload_ok(json_of(text@)->Some_0) {
                                assert(spec_badge_ok(items@[i as int]));
                            }
                        }
                        return Err(ErrorResponse::SerdeJsonParsingError);
                    },
                }
                i = i + 1;
            }
            let meta = match decode_empties(mitems) {
                Some(x) => x,
                None => { return Err(ErrorResponse::SerdeJsonParsingError) },
            };
            Ok(SuccessResponse { data, meta })
        },
        _ => Err(ErrorResponse::SerdeJsonParsingError),
    }
}

impl Client {
    /// Prepares the request for the student's earned badges.
    pub fn badges_request(&self) -> (r: PreparedRequest)
        requires
            self.student_id@.len() > 0,
        ensures
            spec_authed_request(r, *self, Method::Get, "/eventbadges/"@ + self.student_id@),
            r.content_type is None,
            r.body is None,
    {
        let mut path = String::from_str("/eventbadges/");
        path.append(self.student_id.as_str());
        self.build_get(path.as_str())
    }
}

} // verus!
