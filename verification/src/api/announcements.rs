//! School announcements.

use vstd::prelude::*;

use crate::api::helpers::{
    decode_empties, empty_decoder, field_yes_no, spec_field_yes_no, Empty,
};
use crate::client::{spec_authed_request, Client, Method, PreparedRequest};
use crate::envelope::{cc_parse, spec_classify, SuccessResponse};
use crate::error::ErrorResponse;
use crate::json::{
    field_bool, field_opt_string, field_string, field_usize, get_field, json_clone,
    json_obj_views, json_of, json_view, json_views, lemma_decode_seq_fail, lemma_decode_seq_step,
    lemma_json_views_index, obj_get, parse_json, spec_decode_seq, spec_field_bool,
    spec_field_opt_string, spec_field_string, spec_field_usize, JsonValue, JsonView,
};

verus! {

/// A file attached to an announcement.
#[derive(Debug, PartialEq, Eq)]
pub struct Attachment {
    pub filename: String,
    pub url: String,
}

/// One announcement.  The consent fields keep the raw document
/// shapes the service sends for them.
#[derive(Debug, PartialEq)]
pub struct Announcement {
    pub id: usize,
    pub title: String,
    pub description: Option<String>,
    pub school_name: String,
    pub teacher_name: String,
    pub school_logo: Option<String>,
    pub sticky: bool,
    pub state: Option<String>,
    pub timestamp: String,
    pub attachments: Vec<Attachment>,
    pub for_pupils: Vec<JsonValue>,
    pub comment_visibility: String,
    pub allow_comments: bool,
    pub allow_reactions: bool,
    pub allow_consent: bool,
    pub priority_pinned: bool,
    pub requires_consent: bool,
    pub can_change_consent: bool,
    pub consent: Option<JsonValue>,
    pub pupil_consents: Vec<JsonValue>,
}

pub type AnnouncementsMeta = Vec<Empty>;

pub type AnnouncementsData = Vec<Announcement>;

pub type Announcements = SuccessResponse<AnnouncementsData, AnnouncementsMeta>;

/// One attachment record.
pub open spec fn spec_decode_attachment(v: JsonValue) -> Option<Attachment> {
    match v {
        JsonValue::Object(f) => {
            let fs = f@;
            if spec_field_string(fs, "filename"@) is Some && spec_field_string(fs, "url"@)
                is Some {
                Some(
                    Attachment {
                        filename: spec_field_string(fs, "filename"@)->Some_0,
                        url: spec_field_string(fs, "url"@)->Some_0,
                    },
                )
            } else {
                None
            }
        },
        _ => None,
    }
}

/// Decodes one attachment record.
pub fn decode_attachment(v: &JsonValue) -> (r: Option<Attachment>)
    ensures
        r == spec_decode_attachment(*v),
{
    let fields = match v {
        JsonValue::Object(f) => f,
        _ => { return None },
    };
    let filename = match field_string(fields, "filename") {
        Some(x) => x,
        None => { return None },
    };
    let url = match field_string(fields, "url") {
        Some(x) => x,
        None => { return None },
    };
    Some(Attachment { filename, url })
}

/// The element decoder of the attachment list, as a spec value.
pub open spec fn attachment_decoder() -> spec_fn(JsonValue) -> Option<Attachment> {
    |v: JsonValue| spec_decode_attachment(v)
}

/// Decodes the attachment list.
pub fn decode_attachments(items: &Vec<JsonValue>) -> (r: Option<Vec<Attachment>>)
    ensures
        match r {
            Some(out) => spec_decode_seq(items@, attachment_decoder()) == Some(out@),
            None => spec_decode_seq(items@, attachment_decoder()) is None,
        },
{
    let mut out: Vec<Attachment> = Vec::new();
    let mut i: usize = 0;
    proof {
        assert(items@.take(0) =~= Seq::<JsonValue>::empty());
    }
    while i < items.len()
        invariant
            i <= items@.len(),
            spec_decode_seq(items@.take(i as int), attachment_decoder()) == Some(out@),
        decreases items@.len() - i,
    {
        match decode_attachment(&items[i]) {
            Some(a) => {
                out.push(a);
            },
            None => {
                proof {
                    lemma_decode_seq_fail(items@, attachment_decoder(), i as int);
                }
                return None;
            },
        }
        proof {
            lemma_decode_seq_step(items@, attachment_decoder(), i as int);
        }
        i = i + 1;
    }
    proof {
        assert(items@.take(items@.len() as int) =~= items@);
    }
    Some(out)
}

/// Copies a raw JSON array, element for element.
pub fn clone_json_items(items: &Vec<JsonValue>) -> (out: Vec<JsonValue>)
    ensures
        json_views(out@) == json_views(items@),
{
    let mut out: Vec<JsonValue> = Vec::new();
    let mut i: usize = 0;
    while i < items.len()
        invariant
            i <= items@.len(),
            out@.len() == i,
            forall|j: int| 0 <= j < i ==> json_view(#[trigger] out@[j]) == json_view(items@[j]),
        decreases items@.len() - i,
    {
        out.push(json_clone(&items[i]));
        i = i + 1;
    }
    proof {
        lemma_json_views_index(out@);
        lemma_json_views_index(items@);
        assert(json_views(out@) =~= json_views(items@));
    }
    out
}

/// An announcement's shape.
pub open spec fn spec_announcement_ok(v: JsonValue) -> bool {
    match v {
        JsonValue::Object(f) => {
            let fs = f@;
            &&& spec_field_usize(fs, "id"@) is Some
            &&& spec_field_string(fs, "title"@) is Some
            &&& spec_field_opt_string(fs, "description"@) is Some
            &&& spec_field_string(fs, "school_name"@) is Some
            &&& spec_field_string(fs, "teacher_name"@) is Some
            &&& spec_field_opt_string(fs, "school_logo"@) is Some
            &&& spec_field_yes_no(fs, "sticky"@) is Some
            &&& spec_field_opt_string(fs, "state"@) is Some
            &&& spec_field_string(fs, "timestamp"@) is Some
            &&& match obj_get(fs, "attachments"@) {
                Some(JsonValue::Array(items)) => spec_decode_seq(items@, attachment_decoder())
                    is Some,
                _ => false,
            }
            &&& obj_get(fs, "for_pupils"@) matches Some(JsonValue::Array(x))
            &&& spec_field_string(fs, "comment_visibility"@) is Some
            &&& spec_field_yes_no(fs, "allow_comments"@) is Some
            &&& spec_field_yes_no(fs, "allow_reactions"@) is Some
            &&& spec_field_yes_no(fs, "allow_consent"@) is Some
            &&& spec_field_yes_no(fs, "priority_pinned"@) is Some
            &&& spec_field_yes_no(fs, "requires_consent"@) is Some
            &&& spec_field_bool(fs, "can_change_consent"@) is Some
            &&& obj_get(fs, "pupil_consents"@) matches Some(JsonValue::Array(x))
        },
        _ => false,
    }
}

/// The typed reading of an announcement: plain fields by value, raw
/// fields by document shape.
pub open spec fn spec_announcement_matches(a: Announcement, v: JsonValue) -> bool {
    match v {
        JsonValue::Object(f) => {
            let fs = f@;
            &&& spec_field_usize(fs, "id"@) == Some(a.id)
            &&& spec_field_string(fs, "title"@) == Some(a.title)
            &&& spec_field_opt_string(fs, "description"@) == Some(a.description)
            &&& spec_field_string(fs, "school_name"@) == Some(a.school_name)
            &&& spec_field_string(fs, "teacher_name"@) == Some(a.teacher_name)
            &&& spec_field_opt_string(fs, "school_logo"@) == Some(a.school_logo)
            &&& spec_field_yes_no(fs, "sticky"@) == Some(a.sticky)
            &&& spec_field_opt_string(fs, "state"@) == Some(a.state)
            &&& spec_field_string(fs, "timestamp"@) == Some(a.timestamp)
            &&& match obj_get(fs, "attachments"@) {
                Some(JsonValue::Array(items)) => spec_decode_seq(items@, attachment_decoder())
                    == Some(a.attachments@),
                _ => false,
            }
            &&& match obj_get(fs, "for_pupils"@) {
                Some(JsonValue::Array(items)) => json_views(a.for_pupils@) == json_views(items@),
                _ => false,
            }
            &&& spec_field_string(fs, "comment_visibility"@) == Some(a.comment_visibility)
            &&& spec_field_yes_no(fs, "allow_comments"@) == Some(a.allow_comments)
            &&& spec_field_yes_no(fs, "allow_reactions"@) == Some(a.allow_reactions)
            &&& spec_field_yes_no(fs, "allow_consent"@) == Some(a.allow_consent)
            &&& spec_field_yes_no(fs, "priority_pinned"@) == Some(a.priority_pinned)
            &&& spec_field_yes_no(fs, "requires_consent"@) == Some(a.requires_consent)
            &&& spec_field_bool(fs, "can_change_consent"@) == Some(a.can_change_consent)
            &&& match a.consent {
                Some(c) => (match obj_get(fs, "consent"@) {
                    Some(cv) => !(cv is Null) && json_view(c) == json_view(cv),
                    None => false,
                }),
                None => obj_get(fs, "consent"@) is None || obj_get(fs, "consent"@) == Some(
                    JsonValue::Null,
                ),
            }
            &&& match obj_get(fs, "pupil_consents"@) {
                Some(JsonValue::Array(items)) => json_views(a.pupil_consents@) == json_views(
                    items@,
                ),
                _ => false,
            }
        },
        _ => false,
    }
}

/// Decodes one announcement.
#[verifier::rlimit(100)]
#[verifier::spinoff_prover]
pub fn decode_announcement(v: &JsonValue) -> (r: Option<Announcement>)
    ensures
        match r {
            Some(a) => spec_announcement_ok(*v) && spec_announcement_matches(a, *v),
            None => !spec_announcement_ok(*v),
        },
{
    let fields = match v {
        JsonValue::Object(f) => f,
        _ => { return None },
    };
    let id = match field_usize(fields, "id") {
        Some(x) => x,
        None => { return None },
    };
    let title = match field_string(fields, "title") {
        Some(x) => x,
        None => { return None },
    };
    let description = match field_opt_string(fields, "description") {
        Some(x) => x,
        None => { return None },
    };
    let school_name = match field_string(fields, "school_name") {
        Some(x) => x,
        None => { return None },
    };
    let teacher_name = match field_string(fields, "teacher_name") {
        Some(x) => x,
        None => { return None },
    };
    let school_logo = match field_opt_string(fields, "school_logo") {
        Some(x) => x,
        None => { return None },
    };
    let sticky = match field_yes_no(fields, "sticky") {
        Some(x) => x,
        None => { return None },
    };
    let state = match field_opt_string(fields, "state") {
        Some(x) => x,
        None => { return None },
    };
    let timestamp = match field_string(fields, "timestamp") {
        Some(x) => x,
        None => { return None },
    };
    let attachment_items = match get_field(fields, "attachments") {
        Some(JsonValue::Array(items)) => items,
        _ => { return None },
    };
    let attachments = match decode_attachments(attachment_items) {
        Some(x) => x,
        None => { return None },
    };
    let for_pupils_items = match get_field(fields, "for_pupils") {
        Some(JsonValue::Array(items)) => items,
        _ => { return None },
    };
    let for_pupils = clone_json_items(for_pupils_items);
    let comment_visibility = match field_string(fields, "comment_visibility") {
        Some(x) => x,
        None => { return None },
    };
    let allow_comments = match field_yes_no(fields, "allow_comments") {
        Some(x) => x,
        None => { return None },
    };
    let allow_reactions = match field_yes_no(fields, "allow_reactions") {
        Some(x) => x,
        None => { return None },
    };
    let allow_consent = match field_yes_no(fields, "allow_consent") {
        Some(x) => x,
        None => { return None },
    };
    let priority_pinned = match field_yes_no(fields, "priority_pinned") {
        Some(x) => x,
        None => { return None },
    };
    let requires_consent = match field_yes_no(fields, "requires_consent") {
        Some(x) => x,
        None => { return None },
    };
    let can_change_consent = match field_bool(fields, "can_change_consent") {
        Some(x) => x,
        None => { return None },
    };
    let consent = match get_field(fields, "consent") {
        None => None,
        Some(JsonValue::Null) => None,
        Some(cv) => Some(json_clone(cv)),
    };
    let pupil_consents_items = match get_field(fields, "pupil_consents") {
        Some(JsonValue::Array(items)) => items,
        _ => { return None },
    };
    let pupil_consents = clone_json_items(pupil_consents_items);
    Some(
        Announcement {
            id,
            title,
            description,
            school_name,
            teacher_name,
            school_logo,
            sticky,
            state,
            timestamp,
            attachments,
            for_pupils,
            comment_visibility,
            allow_comments,
            allow_reactions,
            allow_consent,
            priority_pinned,
            requires_consent,
            can_change_consent,
            consent,
            pupil_consents,
        },
    )
}

/// The announcements payload shape.
pub open spec fn spec_announcements_payload_ok(doc: JsonValue) -> bool {
    match doc {
        JsonValue::Object(fs) => match (obj_get(fs@, "data"@), obj_get(fs@, "meta"@)) {
            (Some(JsonValue::Array(items)), Some(JsonValue::Array(mitems))) => {
                &&& forall|i: int|
                    0 <= i < items@.len() ==> spec_announcement_ok(#[trigger] items@[i])
                &&& spec_decode_seq(mitems@, empty_decoder()) is Some
            },
            _ => false,
        },
        _ => false,
    }
}

/// The typed reading of an announcements body.
pub open spec fn spec_announcements_payload_matches(resp: Announcements, doc: JsonValue) -> bool {
    match doc {
        JsonValue::Object(fs) => match (obj_get(fs@, "data"@), obj_get(fs@, "meta"@)) {
            (Some(JsonValue::Array(items)), Some(JsonValue::Array(mitems))) => {
                &&& resp.data@.len() == items@.len()
                &&& forall|i: int|
                    0 <= i < items@.len() ==> spec_announcement_matches(
                        #[trigger] resp.data@[i],
                        items@[i],
                    )
                &&& spec_decode_seq(mitems@, empty_decoder()) == Some(resp.meta@)
            },
            _ => false,
        },
        _ => false,
    }
}

/// Interprets the body of an announcements response.
pub fn parse_announcements_response(text: &str) -> (r: Result<Announcements, ErrorResponse>)
    ensures
        match r {
            Ok(resp) => spec_classify(text@) is Ok && spec_announcements_payload_ok(
                json_of(text@)->Some_0,
            ) && spec_announcements_payload_matches(resp, json_of(text@)->Some_0),
            Err(e) => (spec_classify(text@) matches Err(e0) && e == e0) || (spec_classify(text@)
                is Ok && !spec_announcements_payload_ok(json_of(text@)->Some_0)
                && e == ErrorResponse::SerdeJsonParsingError),
        },
{
    let body = match cc_parse(text) {
        Ok(b) => b,
        Err(e) => { return Err(e) },
    };
    match parse_json(body.as_str()) {
        Some(JsonValue::Object(fields)) => {
            let items = match get_field(&fields, "data") {
                Some(JsonValue::Array(items)) => items,
                _ => { return Err(ErrorResponse::SerdeJsonParsingError) },
            };
            let mitems = match get_field(&fields, "meta") {
                Some(JsonValue::Array(mitems)) => mitems,
                _ => { return Err(ErrorResponse::SerdeJsonParsingError) },
            };
            let mut data: Vec<Announcement> = Vec::new();
            let mut i: usize = 0;
            #[verifier::loop_isolation(false)]
            while i < items.len()
                invariant
                    i <= items@.len(),
                    data@.len() == i,
                    forall|j: int| 0 <= j < i ==> spec_announcement_ok(#[trigger] items@[j]),
                    forall|j: int|
                        0 <= j < i ==> spec_announcement_matches(
                            #[trigger] data@[j],
                            items@[j],
                        ),
                decreases items@.len() - i,
            {
                match decode_announcement(&items[i]) {
                    Some(a) => {
                        data.push(a);
                    },
                    None => {
                        proof {
                            if spec_announcements_payload_ok(json_of(text@)->Some_0) {
                                assert(spec_announcement_ok(items@[i as int]));
                            }
                        }
                        return Err(ErrorResponse::SerdeJsonParsingError);
                    },
                }
                i = i + 1;
            }
            let meta = match decode_empties(mitems) {
                Some(x) => x,
                None => { return Err(ErrorResponse::SerdeJsonParsingError) },
            };
            Ok(SuccessResponse { data, meta })
        },
        _ => Err(ErrorResponse::SerdeJsonParsingError),
    }
}

impl Client {
    /// Prepares the request for the student's announcements.
    pub fn announcements_request(&self) -> (r: PreparedRequest)
        requires
            self.student_id@.len() > 0,
        ensures
            spec_authed_request(
                r,
                *self,
                Method::Get,
                "/announcements/"@ + self.student_id@,
            ),
            r.content_type is None,
            r.body is None,
    {
        let mut path = String::from_str("/announcements/");
        path.append(self.student_id.as_str());
        self.build_get(path.as_str())
    }
}

} // verus!
