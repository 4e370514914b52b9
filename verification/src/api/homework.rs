//! Homework: tasks, their completion status and attachments.

use vstd::prelude::*;

use crate::api::helpers::{field_yes_no, spec_field_yes_no};
use crate::client::{spec_authed_request, Client, Method, PreparedRequest};
use crate::codec::{form_encode_pair, form_pair_encoded, join_parts, spec_join_parts, str_views};
use crate::date::Date;
use crate::envelope::{cc_parse, spec_classify, SuccessResponse};
use crate::error::ErrorResponse;
use crate::json::{
    field_bool, field_opt_string, field_string, field_strings, field_usize, get_field,
    json_clone, json_of, json_view, json_views, lemma_decode_seq_fail, lemma_decode_seq_step,
    obj_get, parse_json, spec_decode_seq, spec_field_bool, spec_field_opt_string,
    spec_field_string, spec_field_strings, spec_field_usize, str_eq, JsonValue,
};

verus! {

/// The completion state of a task.
#[derive(Debug, PartialEq, Eq, Structural)]
pub enum HomeworkState {
    NotCompleted,
    Late,
    Completed,
}

/// The status record of a task.  The mark and the attachment list
/// keep the raw document shapes the service sends for them.
#[derive(Debug, PartialEq)]
pub struct HomeworkStatus {
    pub id: usize,
    pub state: Option<HomeworkState>,
    pub mark: JsonValue,
    pub mark_relative: usize,
    pub ticked: bool,
    pub allow_attachments: bool,
    pub first_seen_date: Option<String>,
    pub last_seen_date: Option<String>,
    pub attachments: Vec<JsonValue>,
    pub has_feedback: bool,
}

/// A validated attachment of a task.
#[derive(Debug, PartialEq, Eq)]
pub struct ValidatedHomeworkAttachment {
    pub id: usize,
    pub file_name: String,
    pub file: String,
    pub validated_file: String,
}

/// One homework task.
#[derive(Debug, PartialEq)]
pub struct Homework {
    pub lesson: String,
    pub subject: String,
    pub teacher: String,
    pub homework_type: String,
    pub id: usize,
    pub title: String,
    pub meta_title: String,
    pub description: String,
    pub issue_date: String,
    pub due_date: String,
    pub completion_time_unit: String,
    pub completion_time_value: String,
    pub publish_time: String,
    pub status: HomeworkStatus,
    pub validated_links: Vec<JsonValue>,
    pub validated_attachments: Vec<ValidatedHomeworkAttachment>,
}

/// Which date tasks are listed by.
#[derive(Debug, PartialEq, Eq, Structural)]
pub enum DisplayDate {
    DueDate,
    IssueDate,
}

/// Options of a homework request.
#[derive(Debug, PartialEq, Eq, Structural)]
pub struct HomeworkOptions {
    pub display_date: Option<DisplayDate>,
    pub from: Option<Date>,
    pub to: Option<Date>,
}

/// Homework metadata.
#[derive(Debug, PartialEq, Eq)]
pub struct HomeworkMeta {
    pub start_date: String,
    pub end_date: String,
    pub display_type: DisplayDate,
    pub max_files_allowed: usize,
    pub allowed_file_types: Vec<String>,
    pub this_week_due_count: usize,
    pub this_week_outstanding_count: usize,
    pub this_week_completed_count: usize,
    pub allow_attachments: bool,
    pub display_marks: bool,
}

pub type HomeworkData = Vec<Homework>;

pub type Homeworks = SuccessResponse<HomeworkData, HomeworkMeta>;

/// A completion-state marker.
pub open spec fn spec_decode_homework_state(v: JsonValue) -> Option<HomeworkState> {
    match v {
        JsonValue::Str(s) => if s@ == "not_completed"@ {
            Some(HomeworkState::NotCompleted)
        } else if s@ == "late"@ {
            Some(HomeworkState::Late)
        } else if s@ == "completed"@ {
            Some(HomeworkState::Completed)
        } else {
            None
        },
        _ => None,
    }
}

/// Decodes a completion-state marker.
pub fn decode_homework_state(v: &JsonValue) -> (r: Option<HomeworkState>)
    ensures
        r == spec_decode_homework_state(*v),
{
    match v {
        JsonValue::Str(s) => if str_eq(s.as_str(), "not_completed") {
            Some(HomeworkState::NotCompleted)
        } else if str_eq(s.as_str(), "late") {
            Some(HomeworkState::Late)
        } else if str_eq(s.as_str(), "completed") {
            Some(HomeworkState::Completed)
        } else {
            None
        },
        _ => None,
    }
}

/// An optional completion-state field: absent or `null` decodes to
/// `None`.
pub open spec fn spec_field_opt_state(fields: Seq<(String, JsonValue)>, key: Seq<char>) -> Option<
    Option<HomeworkState>,
> {
    match obj_get(fields, key) {
        None => Some(None),
        Some(JsonValue::Null) => Some(None),
        Some(v) => match spec_decode_homework_state(v) {
            Some(s) => Some(Some(s)),
            None => None,
        },
    }
}

fn field_opt_state(fields: &Vec<(String, JsonValue)>, key: &str) -> (r: Option<
    Option<HomeworkState>,
>)
    ensures
        r == spec_field_opt_state(fields@, key@),
{
    match get_field(fields, key) {
        None => Some(None),
        Some(JsonValue::Null) => Some(None),
        Some(v) => match decode_homework_state(v) {
            Some(s) => Some(Some(s)),
            None => None,
        },
    }
}

/// A display-date marker.
pub open spec fn spec_decode_display_date(v: JsonValue) -> Option<DisplayDate> {
    match v {
        JsonValue::Str(s) => if s@ == "due_date"@ {
            Some(DisplayDate::DueDate)
        } else if s@ == "issue_date"@ {
            Some(DisplayDate::IssueDate)
        } else {
            None
        },
        _ => None,
    }
}

/// Decodes a display-date marker.
pub fn decode_display_date(v: &JsonValue) -> (r: Option<DisplayDate>)
    ensures
        r == spec_decode_display_date(*v),
{
    match v {
        JsonValue::Str(s) => if str_eq(s.as_str(), "due_date") {
            Some(DisplayDate::DueDate)
        } else if str_eq(s.as_str(), "issue_date") {
            Some(DisplayDate::IssueDate)
        } else {
            None
        },
        _ => None,
    }
}

/// A status record's shape.
pub open spec fn spec_homework_status_ok(v: JsonValue) -> bool {
    match v {
        JsonValue::Object(f) => {
            let fs = f@;
            &&& spec_field_usize(fs, "id"@) is Some
            &&& spec_field_opt_state(fs, "state"@) is Some
            &&& obj_get(fs, "mark"@) is Some
            &&& spec_field_usize(fs, "mark_relative"@) is Some
            &&& spec_field_yes_no(fs, "ticked"@) is Some
            &&& spec_field_bool(fs, "allow_attachments"@) is Some
            &&& spec_field_opt_string(fs, "first_seen_date"@) is Some
            &&& spec_field_opt_string(fs, "last_seen_date"@) is Some
            &&& obj_get(fs, "attachments"@) matches Some(JsonValue::Array(x))
            &&& spec_field_bool(fs, "has_feedback"@) is Some
        },
        _ => false,
    }
}

/// The typed reading of a status record.
pub open spec fn spec_homework_status_matches(st: HomeworkStatus, v: JsonValue) -> bool {
    match v {
        JsonValue::Object(f) => {
            let fs = f@;
            &&& spec_field_usize(fs, "id"@) == Some(st.id)
            &&& spec_field_opt_state(fs, "state"@) == Some(st.state)
            &&& match obj_get(fs, "mark"@) {
                Some(mv) => json_view(st.mark) == json_view(mv),
                None => false,
            }
            &&& spec_field_usize(fs, "mark_relative"@) == Some(st.mark_relative)
            &&& spec_field_yes_no(fs, "ticked"@) == Some(st.ticked)
            &&& spec_field_bool(fs, "allow_attachments"@) == Some(st.allow_attachments)
            &&& spec_field_opt_string(fs, "first_seen_date"@) == Some(st.first_seen_date)
            &&& spec_field_opt_string(fs, "last_seen_date"@) == Some(st.last_seen_date)
            &&& match obj_get(fs, "attachments"@) {
                Some(JsonValue::Array(items)) => json_views(st.attachments@) == json_views(
                    items@,
                ),
                _ => false,
            }
            &&& spec_field_bool(fs, "has_feedback"@) == Some(st.has_feedback)
        },
        _ => false,
    }
}

/// Decodes a status record.
pub fn decode_homework_status(v: &JsonValue) -> (r: Option<HomeworkStatus>)
    ensures
        match r {
            Some(st) => spec_homework_status_ok(*v) && spec_homework_status_matches(st, *v),
            None => !spec_homework_status_ok(*v),
        },
{
    let fields = match v {
        JsonValue::Object(f) => f,
        _ => { return None },
    };
    let id = match field_usize(fields, "id") {
        Some(x) => x,
        None => { return None },
    };
    let state = match field_opt_state(fields, "state") {
        Some(x) => x,
        None => { return None },
    };
    let mark = match get_field(fields, "mark") {
        Some(mv) => json_clone(mv),
        None => { return None },
    };
    let mark_relative = match field_usize(fields, "mark_relative") {
        Some(x) => x,
        None => { return None },
    };
    let ticked = match field_yes_no(fields, "ticked") {
        Some(x) => x,
        None => { return None },
    };
    let allow_attachments = match field_bool(fields, "allow_attachments") {
        Some(x) => x,
        None => { return None },
    };
    let first_seen_date = match field_opt_string(fields, "first_seen_date") {
        Some(x) => x,
        None => { return None },
    };
    let last_seen_date = match field_opt_string(fields, "last_seen_date") {
        Some(x) => x,
        None => { return None },
    };
    let attachment_items = match get_field(fields, "attachments") {
        Some(JsonValue::Array(items)) => items,
        _ => { return None },
    };
    let attachments = crate::api::announcements::clone_json_items(attachment_items);
    let has_feedback = match field_bool(fields, "has_feedback") {
        Some(x) => x,
        None => { return None },
    };
    Some(
        HomeworkStatus {
            id,
            state,
            mark,
            mark_relative,
            ticked,
            allow_attachments,
            first_seen_date,
            last_seen_date,
            attachments,
            has_feedback,
        },
    )
}

/// A validated attachment record.
pub open spec fn spec_decode_validated_attachment(v: JsonValue) -> Option<
    ValidatedHomeworkAttachment,
> {
    match v {
        JsonValue::Object(f) => {
            let fs = f@;
            if spec_field_usize(fs, "id"@) is Some && spec_field_string(fs, "file_name"@) is Some
                && spec_field_string(fs, "file"@) is Some && spec_field_string(
                fs,
                "validated_file"@,
            ) is Some {
                Some(
                    ValidatedHomeworkAttachment {
                        id: spec_field_usize(fs, "id"@)->Some_0,
                        file_name: spec_field_string(fs, "file_name"@)->Some_0,
                        file: spec_field_string(fs, "file"@)->Some_0,
                        validated_file: spec_field_string(fs, "validated_file"@)->Some_0,
                    },
                )
            } else {
                None
            }
        },
        _ => None,
    }
}

/// Decodes a validated attachment record.
pub fn decode_validated_attachment(v: &JsonValue) -> (r: Option<ValidatedHomeworkAttachment>)
    ensures
        r == spec_decode_validated_attachment(*v),
{
    let fields = match v {
        JsonValue::Object(f) => f,
        _ => { return None },
    };
    let id = match field_usize(fields, "id") {
        Some(x) => x,
        None => { return None },
    };
    let file_name = match field_string(fields, "file_name") {
        Some(x) => x,
        None => { return None },
    };
    let file = match field_string(fields, "file") {
        Some(x) => x,
        None => { return None },
    };
    let validated_file = match field_string(fields, "validated_file") {
        Some(x) => x,
        None => { return None },
    };
    Some(ValidatedHomeworkAttachment { id, file_name, file, validated_file })
}

/// The element decoder of validated attachments, as a spec value.
pub open spec fn validated_attachment_decoder() -> spec_fn(JsonValue) -> Option<
    ValidatedHomeworkAttachment,
> {
    |v: JsonValue| spec_decode_validated_attachment(v)
}

/// Decodes the validated attachments.
pub fn decode_validated_attachments(items: &Vec<JsonValue>) -> (r: Option<
    Vec<ValidatedHomeworkAttachment>,
>)
    ensures
        match r {
            Some(out) => spec_decode_seq(items@, validated_attachment_decoder()) == Some(out@),
            None => spec_decode_seq(items@, validated_attachment_decoder()) is None,
        },
{
    let mut out: Vec<ValidatedHomeworkAttachment> = Vec::new();
    let mut i: usize = 0;
    proof {
        assert(items@.take(0) =~= Seq::<JsonValue>::empty());
    }
    while i < items.len()
        invariant
            i <= items@.len(),
            spec_decode_seq(items@.take(i as int), validated_attachment_decoder()) == Some(out@),
        decreases items@.len() - i,
    {
        match decode_validated_attachment(&items[i]) {
            Some(a) => {
                out.push(a);
            },
            None => {
                proof {
                    lemma_decode_seq_fail(items@, validated_attachment_decoder(), i as int);
                }
                return None;
            },
        }
        proof {
            lemma_decode_seq_step(items@, validated_attachment_decoder(), i as int);
        }
        i = i + 1;
    }
    proof {
        assert(items@.take(items@.len() as int) =~= items@);
    }
    Some(out)
}

/// A task's shape.
pub open spec fn spec_homework_ok(v: JsonValue) -> bool {
    match v {
        JsonValue::Object(f) => {
            let fs = f@;
            &&& spec_field_string(fs, "lesson"@) is Some
            &&& spec_field_string(fs, "subject"@) is Some
            &&& spec_field_string(fs, "teacher"@) is Some
            &&& spec_field_string(fs, "homework_type"@) is Some
            &&& spec_field_usize(fs, "id"@) is Some
            &&& spec_field_string(fs, "title"@) is Some
            &&& spec_field_string(fs, "meta_title"@) is Some
            &&& spec_field_string(fs, "description"@) is Some
            &&& spec_field_string(fs, "issue_date"@) is Some
            &&& spec_field_string(fs, "due_date"@) is Some
            &&& spec_field_string(fs, "completion_time_unit"@) is Some
            &&& spec_field_string(fs, "completion_time_value"@) is Some
            &&& spec_field_string(fs, "publish_time"@) is Some
            &&& match obj_get(fs, "status"@) {
                Some(sv) => spec_homework_status_ok(sv),
                None => false,
            }
            &&& obj_get(fs, "validated_links"@) matches Some(JsonValue::Array(x))
            &&& match obj_get(fs, "validated_attachments"@) {
                Some(JsonValue::Array(items)) => spec_decode_seq(
                    items@,
                    validated_attachment_decoder(),
                ) is Some,
                _ => false,
            }
        },
        _ => false,
    }
}

/// The typed reading of a task.
pub open spec fn spec_homework_matches(h: Homework, v: JsonValue) -> bool {
    match v {
        JsonValue::Object(f) => {
            let fs = f@;
            &&& spec_field_string(fs, "lesson"@) == Some(h.lesson)
            &&& spec_field_string(fs, "subject"@) == Some(h.subject)
            &&& spec_field_string(fs, "teacher"@) == Some(h.teacher)
            &&& spec_field_string(fs, "homework_type"@) == Some(h.homework_type)
            &&& spec_field_usize(fs, "id"@) == Some(h.id)
            &&& spec_field_string(fs, "title"@) == Some(h.title)
            &&& spec_field_string(fs, "meta_title"@) == Some(h.meta_title)
            &&& spec_field_string(fs, "description"@) == Some(h.description)
            &&& spec_field_string(fs, "issue_date"@) == Some(h.issue_date)
            &&& spec_field_string(fs, "due_date"@) == Some(h.due_date)
            &&& spec_field_string(fs, "completion_time_unit"@) == Some(h.completion_time_unit)
            &&& spec_field_string(fs, "completion_time_value"@) == Some(h.completion_time_value)
            &&& spec_field_string(fs, "publish_time"@) == Some(h.publish_time)
            &&& match obj_get(fs, "status"@) {
                Some(sv) => spec_homework_status_matches(h.status, sv),
                None => false,
            }
            &&& match obj_get(fs, "validated_links"@) {
                Some(JsonValue::Array(items)) => json_views(h.validated_links@) == json_views(
                    items@,
                ),
                _ => false,
            }
            &&& match obj_get(fs, "validated_attachments"@) {
                Some(JsonValue::Array(items)) => spec_decode_seq(
                    items@,
                    validated_attachment_decoder(),
                ) == Some(h.validated_attachments@),
                _ => false,
            }
        },
        _ => false,
    }
}

/// Decodes one task.
#[verifier::rlimit(100)]
#[verifier::spinoff_prover]
pub fn decode_homework(v: &JsonValue) -> (r: Option<Homework>)
    ensures
        match r {
            Some(h) => spec_homework_ok(*v) && spec_homework_matches(h, *v),
            None => !spec_homework_ok(*v),
        },
{
    let fields = match v {
        JsonValue::Object(f) => f,
        _ => { return None },
    };
    let lesson = match field_string(fields, "lesson") {
        Some(x) => x,
        None => { return None },
    };
    let subject = match field_string(fields, "subject") {
        Some(x) => x,
        None => { return None },
    };
    let teacher = match field_string(fields, "teacher") {
        Some(x) => x,
        None => { return None },
    };
    let homework_type = match field_string(fields, "homework_type") {
        Some(x) => x,
        None => { return None },
    };
    let id = match field_usize(fields, "id") {
        Some(x) => x,
        None => { return None },
    };
    let title = match field_string(fields, "title") {
        Some(x) => x,
        None => { return None },
    };
    let meta_title = match field_string(fields, "meta_title") {
        Some(x) => x,
        None => { return None },
    };
    let description = match field_string(fields, "description") {
        Some(x) => x,
        None => { return None },
    };
    let issue_date = match field_string(fields, "issue_date") {
        Some(x) => x,
        None => { return None },
    };
    let due_date = match field_string(fields, "due_date") {
        Some(x) => x,
        None => { return None },
    };
    let completion_time_unit = match field_string(fields, "completion_time_unit") {
        Some(x) => x,
        None => { return None },
    };
    let completion_time_value = match field_string(fields, "completion_time_value") {
        Some(x) => x,
        None => { return None },
    };
    let publish_time = match field_string(fields, "publish_time") {
        Some(x) => x,
        None => { return None },
    };
    let sv = match get_field(fields, "status") {
        Some(x) => x,
        None => { return None },
    };
    let status = match decode_homework_status(sv) {
        Some(x) => x,
        None => { return None },
    };
    let link_items = match get_field(fields, "validated_links") {
        Some(JsonValue::Array(items)) => items,
        _ => { return None },
    };
    let validated_links = crate::api::announcements::clone_json_items(link_items);
    let attachment_items = match get_field(fields, "validated_attachments") {
        Some(JsonValue::Array(items)) => items,
        _ => { return None },
    };
    let validated_attachments = match decode_validated_attachments(attachment_items) {
        Some(x) => x,
        None => { return None },
    };
    Some(
        Homework {
            lesson,
            subject,
            teacher,
            homework_type,
            id,
            title,
            meta_title,
            description,
            issue_date,
            due_date,
            completion_time_unit,
            completion_time_value,
            publish_time,
            status,
            validated_links,
            validated_attachments,
        },
    )
}

/// Homework metadata's shape.
pub open spec fn spec_homework_meta_ok(v: JsonValue) -> bool {
    match v {
        JsonValue::Object(f) => {
            let fs = f@;
            &&& spec_field_string(fs, "start_date"@) is Some
            &&& spec_field_string(fs, "end_date"@) is Some
            &&& match obj_get(fs, "display_type"@) {
                Some(dv) => spec_decode_display_date(dv) is Some,
                None => false,
            }
            &&& spec_field_usize(fs, "max_files_allowed"@) is Some
            &&& spec_field_strings(fs, "allowed_file_types"@) is Some
            &&& spec_field_usize(fs, "this_week_due_count"@) is Some
            &&& spec_field_usize(fs, "this_week_outstanding_count"@) is Some
            &&& spec_field_usize(fs, "this_week_completed_count"@) is Some
            &&& spec_field_bool(fs, "allow_attachments"@) is Some
            &&& spec_field_bool(fs, "display_marks"@) is Some
        },
        _ => false,
    }
}

/// The typed reading of homework metadata.
pub open spec fn spec_homework_meta_matches(m: HomeworkMeta, v: JsonValue) -> bool {
    match v {
        JsonValue::Object(f) => {
            let fs = f@;
            &&& spec_field_string(fs, "start_date"@) == Some(m.start_date)
            &&& spec_field_string(fs, "end_date"@) == Some(m.end_date)
            &&& match obj_get(fs, "display_type"@) {
                Some(dv) => spec_decode_display_date(dv) == Some(m.display_type),
                None => false,
            }
            &&& spec_field_usize(fs, "max_files_allowed"@) == Some(m.max_files_allowed)
            &&& spec_field_strings(fs, "allowed_file_types"@) == Some(m.allowed_file_types@)
            &&& spec_field_usize(fs, "this_week_due_count"@) == Some(m.this_week_due_count)
            &&& spec_field_usize(fs, "this_week_outstanding_count"@) == Some(
                m.this_week_outstanding_count,
            )
            &&& spec_field_usize(fs, "this_week_completed_count"@) == Some(
                m.this_week_completed_count,
            )
            &&& spec_field_bool(fs, "allow_attachments"@) == Some(m.allow_attachments)
            &&& spec_field_bool(fs, "display_marks"@) == Some(m.display_marks)
        },
        _ => false,
    }
}

/// Decodes homework metadata.
pub fn decode_homework_meta(v: &JsonValue) -> (r: Option<HomeworkMeta>)
    ensures
        match r {
            Some(m) => spec_homework_meta_ok(*v) && spec_homework_meta_matches(m, *v),
            None => !spec_homework_meta_ok(*v),
        },
{
    let fields = match v {
        JsonValue::Object(f) => f,
        _ => { return None },
    };
    let start_date = match field_string(fields, "start_date") {
        Some(x) => x,
        None => { return None },
    };
    let end_date = match field_string(fields, "end_date") {
        Some(x) => x,
        None => { return None },
    };
    let dv = match get_field(fields, "display_type") {
        Some(x) => x,
        None => { return None },
    };
    let display_type = match decode_display_date(dv) {
        Some(x) => x,
        None => { return None },
    };
    let max_files_allowed = match field_usize(fields, "max_files_allowed") {
        Some(x) => x,
        None => { return None },
    };
    let allowed_file_types = match field_strings(fields, "allowed_file_types") {
        Some(x) => x,
        None => { return None },
    };
    let this_week_due_count = match field_usize(fields, "this_week_due_count") {
        Some(x) => x,
        None => { return None },
    };
    let this_week_outstanding_count = match field_usize(fields, "this_week_outstanding_count") {
        Some(x) => x,
        None => { return None },
    };
    let this_week_completed_count = match field_usize(fields, "this_week_completed_count") {
        Some(x) => x,
        None => { return None },
    };
    let allow_attachments = match field_bool(fields, "allow_attachments") {
        Some(x) => x,
        None => { return None },
    };
    let display_marks = match field_bool(fields, "display_marks") {
        Some(x) => x,
        None => { return None },
    };
    Some(
        HomeworkMeta {
            start_date,
            end_date,
            display_type,
            max_files_allowed,
            allowed_file_types,
            this_week_due_count,
            this_week_outstanding_count,
            this_week_completed_count,
            allow_attachments,
            display_marks,
        },
    )
}

/// The homework payload shape.
pub open spec fn spec_homeworks_payload_ok(doc: JsonValue) -> bool {
    match doc {
        JsonValue::Object(fs) => match (obj_get(fs@, "data"@), obj_get(fs@, "meta"@)) {
            (Some(JsonValue::Array(items)), Some(mv)) => {
                &&& forall|i: int| 0 <= i < items@.len() ==> spec_homework_ok(#[trigger] items@[i])
                &&& spec_homework_meta_ok(mv)
            },
            _ => false,
        },
        _ => false,
    }
}

/// The typed reading of a homework body.
pub open spec fn spec_homeworks_payload_matches(resp: Homeworks, doc: JsonValue) -> bool {
    match doc {
        JsonValue::Object(fs) => match (obj_get(fs@, "data"@), obj_get(fs@, "meta"@)) {
            (Some(JsonValue::Array(items)), Some(mv)) => {
                &&& resp.data@.len() == items@.len()
                &&& forall|i: int|
                    0 <= i < items@.len() ==> spec_homework_matches(
                        #[trigger] resp.data@[i],
                        items@[i],
                    )
                &&& spec_homework_meta_matches(resp.meta, mv)
            },
            _ => false,
        },
        _ => false,
    }
}

/// Interprets the body of a homework response.
pub fn parse_homeworks_response(text: &str) -> (r: Result<Homeworks, ErrorResponse>)
    ensures
        match r {
            Ok(resp) => spec_classify(text@) is Ok && spec_homeworks_payload_ok(
                json_of(text@)->Some_0,
            ) && spec_homeworks_payload_matches(resp, json_of(text@)->Some_0),
            Err(e) => (spec_classify(text@) matches Err(e0) && e == e0) || (spec_classify(text@)
                is Ok && !spec_homeworks_payload_ok(json_of(text@)->Some_0)
                && e == ErrorResponse::SerdeJsonParsingError),
        },
{
    let body = match cc_parse(text) {
        Ok(b) => b,
        Err(e) => { return Err(e) },
    };
    match parse_json(body.as_str()) {
        Some(JsonValue::Object(fields)) => {
            let items = match get_field(&fields, "data") {
                Some(JsonValue::Array(items)) => items,
                _ => { return Err(ErrorResponse::SerdeJsonParsingError) },
            };
            let mv = match get_field(&fields, "meta") {
                Some(x) => x,
                None => { return Err(ErrorResponse::SerdeJsonParsingError) },
            };
            let mut data: Vec<Homework> = Vec::new();
            let mut i: usize = 0;
            #[verifier::loop_isolation(false)]
            while i < items.len()
                invariant
                    i <= items@.len(),
                    data@.len() == i,
                    forall|j: int| 0 <= j < i ==> spec_homework_ok(#[trigger] items@[j]),
                    forall|j: int|
                        0 <= j < i ==> spec_homework_matches(#[trigger] data@[j], items@[j]),
                decreases items@.len() - i,
            {
                match decode_homework(&items[i]) {
                    Some(h) => {
                        data.push(h);
                    },
                    None => {
                        proof {
                            if spec_homeworks_payload_ok(json_of(text@)->Some_0) {
                                assert(spec_homework_ok(items@[i as int]));
                            }
                        }
                        return Err(ErrorResponse::SerdeJsonParsingError);
                    },
                }
                i = i + 1;
            }
            let meta = match decode_homework_meta(mv) {
                Some(x) => x,
                None => { return Err(ErrorResponse::SerdeJsonParsingError) },
            };
            Ok(SuccessResponse { data, meta })
        },
        _ => Err(ErrorResponse::SerdeJsonParsingError),
    }
}

/// The encoded query parts of a homework request: the date range;
/// the display-date option does not travel in the query.
pub open spec fn spec_homework_parts(o: HomeworkOptions) -> Seq<Seq<char>> {
    let ps = Seq::<Seq<char>>::empty();
    let ps = if o.to is Some {
        ps.push(form_pair_encoded("to"@, o.to->0.spec_format()))
    } else {
        ps
    };
    if o.from is Some {
        ps.push(form_pair_encoded("from"@, o.from->0.spec_format()))
    } else {
        ps
    }
}

/// The query string of a homework request.
pub open spec fn spec_homework_query(options: Option<HomeworkOptions>) -> Seq<char> {
    match options {
        None => Seq::empty(),
        Some(o) => spec_join_parts(spec_homework_parts(o)),
    }
}

impl Client {
    /// Prepares the request for the student's homework.
    pub fn homeworks_request(&self, options: &Option<HomeworkOptions>) -> (r: PreparedRequest)
        requires
            self.student_id@.len() > 0,
        ensures
            spec_authed_request(
                r,
                *self,
                Method::Get,
                "/homeworks/"@ + self.student_id@ + "?"@ + spec_homework_query(*options),
            ),
            r.content_type is None,
            r.body is None,
    {
        let mut parts: Vec<String> = Vec::new();
        match options {
            Some(o) => {
                match &o.to {
                    Some(d) => {
                        let f = d.format();
                        parts.push(form_encode_pair("to", f.as_str()));
                    },
                    None => {},
                }
                match &o.from {
                    Some(d) => {
                        let f = d.format();
                        parts.push(form_encode_pair("from", f.as_str()));
                    },
                    None => {},
                }
                proof {
                    assert(str_views(parts@) =~= spec_homework_parts(*o));
                }
            },
            None => {},
        }
        let query = join_parts(&parts);
        let mut path = String::from_str("/homeworks/");
        path.append(self.student_id.as_str());
        path.append("?");
        path.append(query.as_str());
        proof {
            if options is None {
                assert(str_views(parts@) =~= Seq::<Seq<char>>::empty());
            }
            assert(path@ =~= "/homeworks/"@ + self.student_id@ + "?"@ + spec_homework_query(
                *options,
            ));
        }
        self.build_get(path.as_str())
    }
}

} // verus!
