//! Attendance: per-date, per-session codes over a date range.

use vstd::prelude::*;

use crate::client::{spec_authed_request, Client, Method, PreparedRequest};
use crate::codec::{form_encode_pair, form_pair_encoded, join_parts, spec_join_parts, str_views};
use crate::date::Date;
use crate::envelope::{cc_parse, spec_classify, SuccessResponse};
use crate::error::ErrorResponse;
use crate::json::{
    field_opt_string, field_string, field_strings, get_field, json_of, obj_get, parse_json,
    spec_field_opt_string, spec_field_string, spec_field_strings, str_eq, JsonValue,
};

verus! {

/// Options of an attendance request: the date range.
#[derive(Debug, PartialEq, Eq, Structural)]
pub struct AttendanceOptions {
    pub from: Date,
    pub to: Date,
}

/// Whether a session counts for the student.
#[derive(Debug, PartialEq, Eq, Structural)]
pub enum AttendancePeriodStatus {
    Present,
    Ignore,
}

/// Minutes late: upstream sends either a string or a number.
#[derive(Debug, PartialEq, Eq)]
pub enum LateMinutes {
    Text(String),
    Number(usize),
}

/// One session of one day.
#[derive(Debug, PartialEq, Eq)]
pub struct AttendancePeriod {
    pub code: String,
    pub status: AttendancePeriodStatus,
    pub late_minutes: LateMinutes,
    pub lesson_name: Option<String>,
    pub room_name: Option<String>,
}

/// Attendance metadata.
#[derive(Debug, PartialEq, Eq)]
pub struct AttendanceMeta {
    pub dates: Vec<String>,
    pub sessions: Vec<String>,
    pub start_date: String,
    pub percentage: String,
    pub percentage_singe_august: String,
}

/// The attendance grid: for each date, the periods by session name,
/// in the order the upstream object carries them.
pub type AttendanceData = Vec<(String, Vec<(String, AttendancePeriod)>)>;

pub type Attendance = SuccessResponse<AttendanceData, AttendanceMeta>;

/// A session status marker.
pub open spec fn spec_decode_period_status(v: JsonValue) -> Option<AttendancePeriodStatus> {
    match v {
        JsonValue::Str(s) => if s@ == "present"@ {
            Some(AttendancePeriodStatus::Present)
        } else if s@ == "ignore"@ {
            Some(AttendancePeriodStatus::Ignore)
        } else {
            None
        },
        _ => None,
    }
}

/// Decodes a session status marker.
pub fn decode_period_status(v: &JsonValue) -> (r: Option<AttendancePeriodStatus>)
    ensures
        r == spec_decode_period_status(*v),
{
    match v {
        JsonValue::Str(s) => if str_eq(s.as_str(), "present") {
            Some(AttendancePeriodStatus::Present)
        } else if str_eq(s.as_str(), "ignore") {
            Some(AttendancePeriodStatus::Ignore)
        } else {
            None
        },
        _ => None,
    }
}

/// A late-minutes value: a string, or a number that fits the machine.
pub open spec fn spec_decode_late_minutes(v: JsonValue) -> Option<LateMinutes> {
    match v {
        JsonValue::Str(s) => Some(LateMinutes::Text(s)),
        JsonValue::UInt(u) => if u <= usize::MAX {
            Some(LateMinutes::Number(u as usize))
        } else {
            None
        },
        _ => None,
    }
}

/// Decodes a late-minutes value.
pub fn decode_late_minutes(v: &JsonValue) -> (r: Option<LateMinutes>)
    ensures
        r == spec_decode_late_minutes(*v),
{
    match v {
        JsonValue::Str(s) => Some(LateMinutes::Text(s.clone())),
        JsonValue::UInt(u) => if *u <= usize::MAX as u64 {
            Some(LateMinutes::Number(*u as usize))
        } else {
            None
        },
        _ => None,
    }
}

/// One session record.
pub open spec fn spec_decode_period(v: JsonValue) -> Option<AttendancePeriod> {
    match v {
        JsonValue::Object(f) => {
            let fs = f@;
            if spec_field_string(fs, "code"@) is Some && (match obj_get(fs, "status"@) {
                Some(sv) => spec_decode_period_status(sv) is Some,
                None => false,
            }) && (match obj_get(fs, "late_minutes"@) {
                Some(lv) => spec_decode_late_minutes(lv) is Some,
                None => false,
            }) && spec_field_opt_string(fs, "lesson_name"@) is Some && spec_field_opt_string(
                fs,
                "room_name"@,
            ) is Some {
                Some(
                    AttendancePeriod {
                        code: spec_field_string(fs, "code"@)->Some_0,
                        status: spec_decode_period_status(obj_get(fs, "status"@)->Some_0)->Some_0,
                        late_minutes: spec_decode_late_minutes(
                            obj_get(fs, "late_minutes"@)->Some_0,
                        )->Some_0,
                        lesson_name: spec_field_opt_string(fs, "lesson_name"@)->Some_0,
                        room_name: spec_field_opt_string(fs, "room_name"@)->Some_0,
                    },
                )
            } else {
                None
            }
        },
        _ => None,
    }
}

/// Decodes one session record.
pub fn decode_period(v: &JsonValue) -> (r: Option<AttendancePeriod>)
    ensures
        r == spec_decode_period(*v),
{
    let fields = match v {
        JsonValue::Object(f) => f,
        _ => { return None },
    };
    let code = match field_string(fields, "code") {
        Some(x) => x,
        None => { return None },
    };
    let sv = match get_field(fields, "status") {
        Some(x) => x,
        None => { return None },
    };
    let status = match decode_period_status(sv) {
        Some(x) => x,
        None => { return None },
    };
    let lv = match get_field(fields, "late_minutes") {
        Some(x) => x,
        None => { return None },
    };
    let late_minutes = match decode_late_minutes(lv) {
        Some(x) => x,
        None => { return None },
    };
    let lesson_name = match field_opt_string(fields, "lesson_name") {
        Some(x) => x,
        None => { return None },
    };
    let room_name = match field_opt_string(fields, "room_name") {
        Some(x) => x,
        None => { return None },
    };
    Some(AttendancePeriod { code, status, late_minutes, lesson_name, room_name })
}

/// A day's sessions: every field value is a session record.
pub open spec fn spec_day_ok(ofs: Seq<(String, JsonValue)>) -> bool {
    forall|i: int| 0 <= i < ofs.len() ==> spec_decode_period(#[trigger] ofs[i].1) is Some
}

/// The typed reading of a day's sessions, keys kept in order.
pub open spec fn spec_day_matches(
    out: Seq<(String, AttendancePeriod)>,
    ofs: Seq<(String, JsonValue)>,
) -> bool {
    &&& out.len() == ofs.len()
    &&& forall|i: int|
        0 <= i < ofs.len() ==> (#[trigger] out[i]).0 == ofs[i].0 && Some(out[i].1)
            == spec_decode_period(ofs[i].1)
}

/// Decodes a day's sessions.
pub fn decode_day(ofs: &Vec<(String, JsonValue)>) -> (r: Option<Vec<(String, AttendancePeriod)>>)
    ensures
        match r {
            Some(out) => spec_day_ok(ofs@) && spec_day_matches(out@, ofs@),
            None => !spec_day_ok(ofs@),
        },
{
    let mut out: Vec<(String, AttendancePeriod)> = Vec::new();
    let mut i: usize = 0;
    #[verifier::loop_isolation(false)]
    while i < ofs.len()
        invariant
            i <= ofs@.len(),
            out@.len() == i,
            forall|j: int| 0 <= j < i ==> spec_decode_period(#[trigger] ofs@[j].1) is Some,
            forall|j: int|
                0 <= j < i ==> (#[trigger] out@[j]).0 == ofs@[j].0 && Some(out@[j].1)
                    == spec_decode_period(ofs@[j].1),
        decreases ofs@.len() - i,
    {
        let period = match decode_period(&ofs[i].1) {
            Some(p) => p,
            None => {
                proof {
                    if spec_day_ok(ofs@) {
                        assert(spec_decode_period(ofs@[i as int].1) is Some);
                    }
                }
                return None;
            },
        };
        out.push((ofs[i].0.clone(), period));
        i = i + 1;
    }
    Some(out)
}

/// The attendance grid: every field value is a day object.
pub open spec fn spec_grid_ok(dfs: Seq<(String, JsonValue)>) -> bool {
    forall|i: int|
        0 <= i < dfs.len() ==> ((#[trigger] dfs[i].1) matches JsonValue::Object(ofs)
            && spec_day_ok(ofs@))
}

/// The typed reading of the grid, date keys kept in order.
pub open spec fn spec_grid_matches(out: AttendanceData, dfs: Seq<(String, JsonValue)>) -> bool {
    &&& out@.len() == dfs.len()
    &&& forall|i: int|
        0 <= i < dfs.len() ==> (#[trigger] out@[i]).0 == dfs[i].0 && (dfs[i].1 matches
        JsonValue::Object(ofs) && spec_day_matches(out@[i].1@, ofs@))
}

/// Decodes the attendance grid.
pub fn decode_grid(dfs: &Vec<(String, JsonValue)>) -> (r: Option<AttendanceData>)
    ensures
        match r {
            Some(out) => spec_grid_ok(dfs@) && spec_grid_matches(out, dfs@),
            None => !spec_grid_ok(dfs@),
        },
{
    let mut out: AttendanceData = Vec::new();
    let mut i: usize = 0;
    #[verifier::loop_isolation(false)]
    while i < dfs.len()
        invariant
            i <= dfs@.len(),
            out@.len() == i,
            forall|j: int|
                0 <= j < i ==> ((#[trigger] dfs@[j].1) matches JsonValue::Object(ofs)
                    && spec_day_ok(ofs@)),
            forall|j: int|
                0 <= j < i ==> (#[trigger] out@[j]).0 == dfs@[j].0 && (dfs@[j].1 matches
                JsonValue::Object(ofs) && spec_day_matches(out@[j].1@, ofs@)),
        decreases dfs@.len() - i,
    {
        let ofs = match &dfs[i].1 {
            JsonValue::Object(ofs) => ofs,
            _ => {
                proof {
                    if spec_grid_ok(dfs@) {
                        assert(dfs@[i as int].1 matches JsonValue::Object(x));
                    }
                }
                return None;
            },
        };
        let day = match decode_day(ofs) {
            Some(d) => d,
            None => {
                proof {
                    if spec_grid_ok(dfs@) {
                        assert(dfs@[i as int].1 matches JsonValue::Object(x) && spec_day_ok(
                            x@,
                        ));
                    }
                }
                return None;
            },
        };
        out.push((dfs[i].0.clone(), day));
        i = i + 1;
    }
    Some(out)
}

/// The attendance payload shape.
pub open spec fn spec_attendance_payload_ok(doc: JsonValue) -> bool {
    match doc {
        JsonValue::Object(fs) => match (obj_get(fs@, "data"@), obj_get(fs@, "meta"@)) {
            (Some(JsonValue::Object(dfs)), Some(JsonValue::Object(mfs))) => {
                &&& spec_grid_ok(dfs@)
                &&& spec_field_strings(mfs@, "dates"@) is Some
                &&& spec_field_strings(mfs@, "sessions"@) is Some
                &&& spec_field_string(mfs@, "start_date"@) is Some
                &&& spec_field_string(mfs@, "percentage"@) is Some
                &&& spec_field_string(mfs@, "percentage_singe_august"@) is Some
            },
            _ => false,
        },
        _ => false,
    }
}

/// The typed reading of an attendance body.
pub open spec fn spec_attendance_payload_matches(resp: Attendance, doc: JsonValue) -> bool {
    match doc {
        JsonValue::Object(fs) => match (obj_get(fs@, "data"@), obj_get(fs@, "meta"@)) {
            (Some(JsonValue::Object(dfs)), Some(JsonValue::Object(mfs))) => {
                &&& spec_grid_matches(resp.data, dfs@)
                &&& spec_field_strings(mfs@, "dates"@) == Some(resp.meta.dates@)
                &&& spec_field_strings(mfs@, "sessions"@) == Some(resp.meta.sessions@)
                &&& spec_field_string(mfs@, "start_date"@) == Some(resp.meta.start_date)
                &&& spec_field_string(mfs@, "percentage"@) == Some(resp.meta.percentage)
                &&& spec_field_string(mfs@, "percentage_singe_august"@) == Some(
                    resp.meta.percentage_singe_august,
                )
            },
            _ => false,
        },
        _ => false,
    }
}

/// Interprets the body of an attendance response.
pub fn parse_attendance_response(text: &str) -> (r: Result<Attendance, ErrorResponse>)
    ensures
        match r {
            Ok(resp) => spec_classify(text@) is Ok && spec_attendance_payload_ok(
                json_of(text@)->Some_0,
            ) && spec_attendance_payload_matches(resp, json_of(text@)->Some_0),
            Err(e) => (spec_classify(text@) matches Err(e0) && e == e0) || (spec_classify(text@)
                is Ok && !spec_attendance_payload_ok(json_of(text@)->Some_0)
                && e == ErrorResponse::SerdeJsonParsingError),
        },
{
    let body = match cc_parse(text) {
        Ok(b) => b,
        Err(e) => { return Err(e) },
    };
    match parse_json(body.as_str()) {
        Some(JsonValue::Object(fields)) => {
            let dfs = match get_field(&fields, "data") {
                Some(JsonValue::Object(dfs)) => dfs,
                _ => { return Err(ErrorResponse::SerdeJsonParsingError) },
            };
            let mfs = match get_field(&fields, "meta") {
                Some(JsonValue::Object(mfs)) => mfs,
                _ => { return Err(ErrorResponse::SerdeJsonParsingError) },
            };
            let data = match decode_grid(dfs) {
                Some(x) => x,
                None => { return Err(ErrorResponse::SerdeJsonParsingError) },
            };
            let dates = match field_strings(mfs, "dates") {
                Some(x) => x,
                None => { return Err(ErrorResponse::SerdeJsonParsingError) },
            };
            let sessions = match field_strings(mfs, "sessions") {
                Some(x) => x,
                None => { return Err(ErrorResponse::SerdeJsonParsingError) },
            };
            let start_date = match field_string(mfs, "start_date") {
                Some(x) => x,
                None => { return Err(ErrorResponse::SerdeJsonParsingError) },
            };
            let percentage = match field_string(mfs, "percentage") {
                Some(x) => x,
                None => { return Err(ErrorResponse::SerdeJsonParsingError) },
            };
            let percentage_singe_august = match field_string(mfs, "percentage_singe_august") {
                Some(x) => x,
                None => { return Err(ErrorResponse::SerdeJsonParsingError) },
            };
            Ok(
                SuccessResponse {
                    data,
                    meta: AttendanceMeta {
                        dates,
                        sessions,
                        start_date,
                        percentage,
                        percentage_singe_august,
                    },
                },
            )
        },
        _ => Err(ErrorResponse::SerdeJsonParsingError),
    }
}

/// The encoded query parts of an attendance request.
pub open spec fn spec_attendance_parts(options: Option<AttendanceOptions>) -> Seq<Seq<char>> {
    match options {
        None => Seq::empty(),
        Some(o) => seq![
            form_pair_encoded("to"@, o.to.spec_format()),
            form_pair_encoded("from"@, o.from.spec_format()),
        ],
    }
}

impl Client {
    /// Prepares the request for the student's attendance.
    pub fn attendance_request(&self, options: &Option<AttendanceOptions>) -> (r: PreparedRequest)
        requires
            self.student_id@.len() > 0,
        ensures
            spec_authed_request(
                r,
                *self,
                Method::Get,
                "/attendance/"@ + self.student_id@ + "?"@ + spec_join_parts(
                    spec_attendance_parts(*options),
                ),
            ),
            r.content_type is None,
            r.body is None,
    {
        let mut parts: Vec<String> = Vec::new();
        match options {
            Some(o) => {
                let to = o.to.format();
                parts.push(form_encode_pair("to", to.as_str()));
                let from = o.from.format();
                parts.push(form_encode_pair("from", from.as_str()));
                proof {
                    assert(str_views(parts@) =~= spec_attendance_parts(*options));
                }
            },
            None => {
                proof {
                    assert(str_views(parts@) =~= spec_attendance_parts(*options));
                }
            },
        }
        let query = join_parts(&parts);
        let mut path = String::from_str("/attendance/");
        path.append(self.student_id.as_str());
        path.append("?");
        path.append(query.as_str());
        proof {
            assert(path@ =~= "/attendance/"@ + self.student_id@ + "?"@ + spec_join_parts(
                spec_attendance_parts(*options),
            ));
        }
        self.build_get(path.as_str())
    }
}

} // verus!
