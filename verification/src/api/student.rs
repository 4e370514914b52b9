//! The student identity payload, returned by the ping endpoint.  The
//! login flow reads the user id from it, and the session manager
//! reads the refreshed token from the accompanying metadata.

use vstd::prelude::*;

use crate::client::{spec_ping_request, Client, PreparedRequest};
use crate::envelope::{cc_parse, spec_classify, SuccessResponse};
use crate::error::ErrorResponse;
use crate::json::{
    field_bool, field_opt_usize, field_string, field_usize, get_field, json_of, obj_get,
    parse_json, spec_field_bool, spec_field_opt_usize, spec_field_string, spec_field_usize,
    JsonValue,
};

verus! {

/// The student record of the identity payload.
#[derive(Debug, PartialEq, Eq)]
pub struct Student {
    pub id: usize,
    pub name: String,
    pub first_name: String,
    pub last_name: String,
    pub avatar_url: String,
    pub display_behaviour: bool,
    pub display_parent_behaviour: bool,
    pub display_homework: bool,
    pub display_rewards: bool,
    pub display_detentions: bool,
    pub display_report_cards: bool,
    pub display_classes: bool,
    pub display_announcements: bool,
    pub display_attendance: bool,
    pub display_attendance_type: String,
    pub display_attendance_percentage: bool,
    pub display_activity: bool,
    pub display_mental_health: bool,
    pub display_timetable: bool,
    pub is_disabled: bool,
    pub display_two_way_communications: bool,
    pub display_absences: bool,
    pub can_upload_attachments: bool,
    pub display_event_badges: bool,
    pub display_avatars: bool,
    pub display_concern_submission: bool,
    pub display_custom_fields: bool,
    pub pupil_concerns_help_text: String,
    pub allow_pupils_add_timetable_notes: bool,
    pub announcements_count: usize,
    pub messages_count: usize,
    pub pusher_channel_name: String,
    pub has_birthday: bool,
    pub has_new_survey: bool,
    pub survey_id: Option<usize>,
    pub detention_alias_plural_uc: String,
}

/// The identity payload: the student record under `user`.
#[derive(Debug, PartialEq, Eq)]
pub struct StudentInfoData {
    pub user: Student,
}

/// The identity metadata.
#[derive(Debug, PartialEq, Eq)]
pub struct StudentInfoMeta {
    pub version: String,
}

/// A student record: an object carrying every field of [`Student`].
pub open spec fn spec_decode_student(v: JsonValue) -> Option<Student> {
    match v {
        JsonValue::Object(f) => {
            let fs = f@;
            if spec_field_usize(fs, "id"@) is Some && spec_field_string(fs, "name"@) is Some
                && spec_field_string(fs, "first_name"@) is Some && spec_field_string(
                fs,
                "last_name"@,
            ) is Some && spec_field_string(fs, "avatar_url"@) is Some && spec_field_bool(
                fs,
                "display_behaviour"@,
            ) is Some && spec_field_bool(fs, "display_parent_behaviour"@) is Some
                && spec_field_bool(fs, "display_homework"@) is Some && spec_field_bool(
                fs,
                "display_rewards"@,
            ) is Some && spec_field_bool(fs, "display_detentions"@) is Some && spec_field_bool(
                fs,
                "display_report_cards"@,
            ) is Some && spec_field_bool(fs, "display_classes"@) is Some && spec_field_bool(
                fs,
                "display_announcements"@,
            ) is Some && spec_field_bool(fs, "display_attendance"@) is Some && spec_field_string(
                fs,
                "display_attendance_type"@,
            ) is Some && spec_field_bool(fs, "display_attendance_percentage"@) is Some
                && spec_field_bool(fs, "display_activity"@) is Some && spec_field_bool(
                fs,
                "display_mental_health"@,
            ) is Some && spec_field_bool(fs, "display_timetable"@) is Some && spec_field_bool(
                fs,
                "is_disabled"@,
            ) is Some && spec_field_bool(fs, "display_two_way_communications"@) is Some
                && spec_field_bool(fs, "display_absences"@) is Some && spec_field_bool(
                fs,
                "can_upload_attachments"@,
            ) is Some && spec_field_bool(fs, "display_event_badges"@) is Some && spec_field_bool(
                fs,
                "display_avatars"@,
            ) is Some && spec_field_bool(fs, "display_concern_submission"@) is Some
                && spec_field_bool(fs, "display_custom_fields"@) is Some && spec_field_string(
                fs,
                "pupil_concerns_help_text"@,
            ) is Some && spec_field_bool(fs, "allow_pupils_add_timetable_notes"@) is Some
                && spec_field_usize(fs, "announcements_count"@) is Some && spec_field_usize(
                fs,
                "messages_count"@,
            ) is Some && spec_field_string(fs, "pusher_channel_name"@) is Some && spec_field_bool(
                fs,
                "has_birthday"@,
            ) is Some && spec_field_bool(fs, "has_new_survey"@) is Some && spec_field_opt_usize(
                fs,
                "survey_id"@,
            ) is Some && spec_field_string(fs, "detention_alias_plural_uc"@) is Some {
                Some(
                    Student {
                        id: spec_field_usize(fs, "id"@)->Some_0,
                        name: spec_field_string(fs, "name"@)->Some_0,
                        first_name: spec_field_string(fs, "first_name"@)->Some_0,
                        last_name: spec_field_string(fs, "last_name"@)->Some_0,
                        avatar_url: spec_field_string(fs, "avatar_url"@)->Some_0,
                        display_behaviour: spec_field_bool(fs, "display_behaviour"@)->Some_0,
                        display_parent_behaviour: spec_field_bool(
                            fs,
                            "display_parent_behaviour"@,
                        )->Some_0,
                        display_homework: spec_field_bool(fs, "display_homework"@)->Some_0,
                        display_rewards: spec_field_bool(fs, "display_rewards"@)->Some_0,
                        display_detentions: spec_field_bool(fs, "display_detentions"@)->Some_0,
                        display_report_cards: spec_field_bool(fs, "display_report_cards"@)->Some_0,
                        display_classes: spec_field_bool(fs, "display_classes"@)->Some_0,
                        display_announcements: spec_field_bool(
                            fs,
                            "display_announcements"@,
                        )->Some_0,
                        display_attendance: spec_field_bool(fs, "display_attendance"@)->Some_0,
                        display_attendance_type: spec_field_string(
                            fs,
                            "display_attendance_type"@,
                        )->Some_0,
                        display_attendance_percentage: spec_field_bool(
                            fs,
                            "display_attendance_percentage"@,
                        )->Some_0,
                        display_activity: spec_field_bool(fs, "display_activity"@)->Some_0,
                        display_mental_health: spec_field_bool(
                            fs,
                            "display_mental_health"@,
                        )->Some_0,
                        display_timetable: spec_field_bool(fs, "display_timetable"@)->Some_0,
                        is_disabled: spec_field_bool(fs, "is_disabled"@)->Some_0,
                        display_two_way_communications: spec_field_bool(
                            fs,
                            "display_two_way_communications"@,
                        )->Some_0,
                        display_absences: spec_field_bool(fs, "display_absences"@)->Some_0,
                        can_upload_attachments: spec_field_bool(
                            fs,
                            "can_upload_attachments"@,
                        )->Some_0,
                        display_event_badges: spec_field_bool(fs, "display_event_badges"@)->Some_0,
                        display_avatars: spec_field_bool(fs, "display_avatars"@)->Some_0,
                        display_concern_submission: spec_field_bool(
                            fs,
                            "display_concern_submission"@,
                        )->Some_0,
                        display_custom_fields: spec_field_bool(
                            fs,
                            "display_custom_fields"@,
                        )->Some_0,
                        pupil_concerns_help_text: spec_field_string(
                            fs,
                            "pupil_concerns_help_text"@,
                        )->Some_0,
                        allow_pupils_add_timetable_notes: spec_field_bool(
                            fs,
                            "allow_pupils_add_timetable_notes"@,
                        )->Some_0,
                        announcements_count: spec_field_usize(fs, "announcements_count"@)->Some_0,
                        messages_count: spec_field_usize(fs, "messages_count"@)->Some_0,
                        pusher_channel_name: spec_field_string(fs, "pusher_channel_name"@)->Some_0,
                        has_birthday: spec_field_bool(fs, "has_birthday"@)->Some_0,
                        has_new_survey: spec_field_bool(fs, "has_new_survey"@)->Some_0,
                        survey_id: spec_field_opt_usize(fs, "survey_id"@)->Some_0,
                        detention_alias_plural_uc: spec_field_string(
                            fs,
                            "detention_alias_plural_uc"@,
                        )->Some_0,
                    },
                )
            } else {
                None
            }
        },
        _ => None,
    }
}

/// Decodes a student record.
#[verifier::rlimit(100)]
#[verifier::spinoff_prover]
pub fn decode_student(v: &JsonValue) -> (r: Option<Student>)
    ensures
        r == spec_decode_student(*v),
{
    let fields = match v {
        JsonValue::Object(f) => f,
        _ => { return None },
    };
    let id = match field_usize(fields, "id") {
        Some(x) => x,
        None => { return None },
    };
    let name = match field_string(fields, "name") {
        Some(x) => x,
        None => { return None },
    };
    let first_name = match field_string(fields, "first_name") {
        Some(x) => x,
        None => { return None },
    };
    let last_name = match field_string(fields, "last_name") {
        Some(x) => x,
        None => { return None },
    };
    let avatar_url = match field_string(fields, "avatar_url") {
        Some(x) => x,
        None => { return None },
    };
    let display_behaviour = match field_bool(fields, "display_behaviour") {
        Some(x) => x,
        None => { return None },
    };
    let display_parent_behaviour = match field_bool(fields, "display_parent_behaviour") {
        Some(x) => x,
        None => { return None },
    };
    let display_homework = match field_bool(fields, "display_homework") {
        Some(x) => x,
        None => { return None },
    };
    let display_rewards = match field_bool(fields, "display_rewards") {
        Some(x) => x,
        None => { return None },
    };
    let display_detentions = match field_bool(fields, "display_detentions") {
        Some(x) => x,
        None => { return None },
    };
    let display_report_cards = match field_bool(fields, "display_report_cards") {
        Some(x) => x,
        None => { return None },
    };
    let display_classes = match field_bool(fields, "display_classes") {
        Some(x) => x,
        None => { return None },
    };
    let display_announcements = match field_bool(fields, "display_announcements") {
        Some(x) => x,
        None => { return None },
    };
    let display_attendance = match field_bool(fields, "display_attendance") {
        Some(x) => x,
        None => { return None },
    };
    let display_attendance_type = match field_string(fields, "display_attendance_type") {
        Some(x) => x,
        None => { return None },
    };
    let display_attendance_percentage = match field_bool(
        fields,
        "display_attendance_percentage",
    ) {
        Some(x) => x,
        None => { return None },
    };
    let display_activity = match field_bool(fields, "display_activity") {
        Some(x) => x,
        None => { return None },
    };
    let display_mental_health = match field_bool(fields, "display_mental_health") {
        Some(x) => x,
        None => { return None },
    };
    let display_timetable = match field_bool(fields, "display_timetable") {
        Some(x) => x,
        None => { return None },
    };
    let is_disabled = match field_bool(fields, "is_disabled") {
        Some(x) => x,
        None => { return None },
    };
    let display_two_way_communications = match field_bool(
        fields,
        "display_two_way_communications",
    ) {
        Some(x) => x,
        None => { return None },
    };
    let display_absences = match field_bool(fields, "display_absences") {
        Some(x) => x,
        None => { return None },
    };
    let can_upload_attachments = match field_bool(fields, "can_upload_attachments") {
        Some(x) => x,
        None => { return None },
    };
    let display_event_badges = match field_bool(fields, "display_event_badges") {
        Some(x) => x,
        None => { return None },
    };
    let display_avatars = match field_bool(fields, "display_avatars") {
        Some(x) => x,
        None => { return None },
    };
    let display_concern_submission = match field_bool(fields, "display_concern_submission") {
        Some(x) => x,
        None => { return None },
    };
    let display_custom_fields = match field_bool(fields, "display_custom_fields") {
        Some(x) => x,
        None => { return None },
    };
    let pupil_concerns_help_text = match field_string(fields, "pupil_concerns_help_text") {
        Some(x) => x,
        None => { return None },
    };
    let allow_pupils_add_timetable_notes = match field_bool(
        fields,
        "allow_pupils_add_timetable_notes",
    ) {
        Some(x) => x,
        None => { return None },
    };
    let announcements_count = match field_usize(fields, "announcements_count") {
        Some(x) => x,
        None => { return None },
    };
    let messages_count = match field_usize(fields, "messages_count") {
        Some(x) => x,
        None => { return None },
    };
    let pusher_channel_name = match field_string(fields, "pusher_channel_name") {
        Some(x) => x,
        None => { return None },
    };
    let has_birthday = match field_bool(fields, "has_birthday") {
        Some(x) => x,
        None => { return None },
    };
    let has_new_survey = match field_bool(fields, "has_new_survey") {
        Some(x) => x,
        None => { return None },
    };
    let survey_id = match field_opt_usize(fields, "survey_id") {
        Some(x) => x,
        None => { return None },
    };
    let detention_alias_plural_uc = match field_string(fields, "detention_alias_plural_uc") {
        Some(x) => x,
        None => { return None },
    };
    Some(
        Student {
            id,
            name,
            first_name,
            last_name,
            avatar_url,
            display_behaviour,
            display_parent_behaviour,
            display_homework,
            display_rewards,
            display_detentions,
            display_report_cards,
            display_classes,
            display_announcements,
            display_attendance,
            display_attendance_type,
            display_attendance_percentage,
            display_activity,
            display_mental_health,
            display_timetable,
            is_disabled,
            display_two_way_communications,
            display_absences,
            can_upload_attachments,
            display_event_badges,
            display_avatars,
            display_concern_submission,
            display_custom_fields,
            pupil_concerns_help_text,
            allow_pupils_add_timetable_notes,
            announcements_count,
            messages_count,
            pusher_channel_name,
            has_birthday,
            has_new_survey,
            survey_id,
            detention_alias_plural_uc,
        },
    )
}

/// An identity payload: an object whose `user` field is a student
/// record.
pub open spec fn spec_decode_student_info_data(v: JsonValue) -> Option<StudentInfoData> {
    match v {
        JsonValue::Object(f) => match obj_get(f@, "user"@) {
            Some(user_value) => match spec_decode_student(user_value) {
                Some(user) => Some(StudentInfoData { user }),
                None => None,
            },
            None => None,
        },
        _ => None,
    }
}

/// Decodes an identity payload.
pub fn decode_student_info_data(v: &JsonValue) -> (r: Option<StudentInfoData>)
    ensures
        r == spec_decode_student_info_data(*v),
{
    let fields = match v {
        JsonValue::Object(f) => f,
        _ => { return None },
    };
    let user_value = match get_field(fields, "user") {
        Some(x) => x,
        None => { return None },
    };
    match decode_student(user_value) {
        Some(user) => Some(StudentInfoData { user }),
        None => None,
    }
}

/// Identity metadata: an object whose `version` field is a string.
pub open spec fn spec_decode_student_info_meta(v: JsonValue) -> Option<StudentInfoMeta> {
    match v {
        JsonValue::Object(f) => match spec_field_string(f@, "version"@) {
            Some(version) => Some(StudentInfoMeta { version }),
            None => None,
        },
        _ => None,
    }
}

/// Decodes identity metadata.
pub fn decode_student_info_meta(v: &JsonValue) -> (r: Option<StudentInfoMeta>)
    ensures
        r == spec_decode_student_info_meta(*v),
{
    let fields = match v {
        JsonValue::Object(f) => f,
        _ => { return None },
    };
    match field_string(fields, "version") {
        Some(version) => Some(StudentInfoMeta { version }),
        None => None,
    }
}

pub type StudentInfo = SuccessResponse<StudentInfoData, StudentInfoMeta>;

/// The interpretation of an identity response body.
pub open spec fn spec_parse_student_info(text: Seq<char>) -> Result<StudentInfo, ErrorResponse> {
    match spec_classify(text) {
        Err(e) => Err(e),
        Ok(body) => match json_of(body) {
            Some(JsonValue::Object(fields)) => match (
                obj_get(fields@, "data"@),
                obj_get(fields@, "meta"@),
            ) {
                (Some(dv), Some(mv)) => match (
                    spec_decode_student_info_data(dv),
                    spec_decode_student_info_meta(mv),
                ) {
                    (Some(data), Some(meta)) => Ok(SuccessResponse { data, meta }),
                    _ => Err(ErrorResponse::SerdeJsonParsingError),
                },
                _ => Err(ErrorResponse::SerdeJsonParsingError),
            },
            _ => Err(ErrorResponse::SerdeJsonParsingError),
        },
    }
}

/// Interprets the body of an identity response.
pub fn parse_student_info(text: &str) -> (r: Result<StudentInfo, ErrorResponse>)
    ensures
        r == spec_parse_student_info(text@),
{
    let body = match cc_parse(text) {
        Ok(b) => b,
        Err(e) => { return Err(e) },
    };
    match parse_json(body.as_str()) {
        Some(JsonValue::Object(fields)) => {
            let dv = match get_field(&fields, "data") {
                Some(x) => x,
                None => { return Err(ErrorResponse::SerdeJsonParsingError) },
            };
            let mv = match get_field(&fields, "meta") {
                Some(x) => x,
                None => { return Err(ErrorResponse::SerdeJsonParsingError) },
            };
            match (decode_student_info_data(dv), decode_student_info_meta(mv)) {
                (Some(data), Some(meta)) => Ok(SuccessResponse { data, meta }),
                _ => Err(ErrorResponse::SerdeJsonParsingError),
            }
        },
        _ => Err(ErrorResponse::SerdeJsonParsingError),
    }
}

impl Client {
    /// Prepares the identity fetch: the same ping round trip the
    /// session refresh uses.
    pub fn student_info_request(&self) -> (r: PreparedRequest)
        ensures
            spec_ping_request(r, *self),
    {
        self.ping_request()
    }
}

} // verus!
