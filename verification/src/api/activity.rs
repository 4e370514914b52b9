//! The activity feed: behaviour points over a date range, paged by a
//! `last_id` cursor.

use vstd::prelude::*;

use crate::client::{spec_api_url, spec_authed_request, Client, Method, PreparedRequest};
use crate::codec::{form_encode_pair, form_pair_encoded, join_parts, spec_join_parts, str_views};
use crate::date::Date;
use crate::envelope::{cc_parse, spec_classify, SuccessResponse};
use crate::error::ErrorResponse;
use crate::json::{
    field_bool, field_isize, field_opt_string, field_string, field_usize, get_field, json_of,
    lemma_decode_seq_fail, lemma_decode_seq_step, obj_get, parse_json, spec_decode_seq,
    spec_field_bool, spec_field_isize, spec_field_opt_string, spec_field_string, spec_field_usize,
    JsonValue,
};
use crate::text::dec_rep;
use crate::text::u64_to_string;

verus! {

/// Styling attached to an activity point.
#[derive(Debug, PartialEq, Eq)]
pub struct ActivityStyle {
    pub border_color: Option<String>,
    pub custom_class: Option<String>,
}

/// One activity-feed entry.
#[derive(Debug, PartialEq, Eq)]
pub struct ActivityPoint {
    pub id: usize,
    pub point_type: String,
    pub polarity: String,
    pub reason: String,
    pub score: isize,
    pub timestamp: String,
    pub timestamp_custom_time: Option<String>,
    pub style: ActivityStyle,
    pub pupil_name: String,
    pub lesson_name: Option<String>,
    pub teacher_name: String,
    pub room_name: Option<String>,
    pub note: Option<String>,
    pub _can_delete: bool,
    pub badges: Option<String>,
    pub detention_date: Option<String>,
    pub detention_time: Option<String>,
    pub detention_location: Option<String>,
    pub detention_type: Option<String>,
}

pub type ActivityData = Vec<ActivityPoint>;

/// The cursor upstream hands back: a number to page on, or a boolean
/// when there is nothing to page.
#[derive(Debug, PartialEq, Eq, Structural)]
pub enum LastId {
    Boolean(bool),
    Number(usize),
}

/// Metadata of an activity page.
#[derive(Debug, PartialEq, Eq)]
pub struct ActivityMeta {
    pub start_date: String,
    pub end_date: String,
    pub step_size: String,
    pub last_id: Option<LastId>,
    pub detention_alias_uc: String,
}

pub type Activity = SuccessResponse<ActivityData, ActivityMeta>;

/// The optional bounds and cursor of one activity request.
#[derive(Debug, PartialEq, Eq)]
pub struct ActivityOptions {
    pub from: Option<Date>,
    pub to: Option<Date>,
    pub last_id: Option<String>,
}

/// The date range of a fully paginated activity walk.
#[derive(Debug, PartialEq, Eq, Structural)]
pub struct FullActivityOptions {
    pub from: Date,
    pub to: Date,
}

/// A cursor value: a boolean, or a number that fits the machine.
pub open spec fn spec_decode_last_id(v: JsonValue) -> Option<LastId> {
    match v {
        JsonValue::Bool(b) => Some(LastId::Boolean(b)),
        JsonValue::UInt(u) => if u <= usize::MAX {
            Some(LastId::Number(u as usize))
        } else {
            None
        },
        _ => None,
    }
}

/// Decodes a cursor value.
pub fn decode_last_id(v: &JsonValue) -> (r: Option<LastId>)
    ensures
        r == spec_decode_last_id(*v),
{
    match v {
        JsonValue::Bool(b) => Some(LastId::Boolean(*b)),
        JsonValue::UInt(u) => if *u <= usize::MAX as u64 {
            Some(LastId::Number(*u as usize))
        } else {
            None
        },
        _ => None,
    }
}

/// An optional cursor field: absent or `null` decodes to `None`.
pub open spec fn spec_field_opt_last_id(
    fields: Seq<(String, JsonValue)>,
    key: Seq<char>,
) -> Option<Option<LastId>> {
    match obj_get(fields, key) {
        None => Some(None),
        Some(JsonValue::Null) => Some(None),
        Some(v) => match spec_decode_last_id(v) {
            Some(l) => Some(Some(l)),
            None => None,
        },
    }
}

fn field_opt_last_id(fields: &Vec<(String, JsonValue)>, key: &str) -> (r: Option<Option<LastId>>)
    ensures
        r == spec_field_opt_last_id(fields@, key@),
{
    match get_field(fields, key) {
        None => Some(None),
        Some(JsonValue::Null) => Some(None),
        Some(v) => match decode_last_id(v) {
            Some(l) => Some(Some(l)),
            None => None,
        },
    }
}

/// Activity-point styling: both colour and class may be absent.
pub open spec fn spec_decode_activity_style(v: JsonValue) -> Option<ActivityStyle> {
    match v {
        JsonValue::Object(f) => match (
            spec_field_opt_string(f@, "border_color"@),
            spec_field_opt_string(f@, "custom_class"@),
        ) {
            (Some(border_color), Some(custom_class)) => Some(
                ActivityStyle { border_color, custom_class },
            ),
            _ => None,
        },
        _ => None,
    }
}

/// Decodes activity-point styling.
pub fn decode_activity_style(v: &JsonValue) -> (r: Option<ActivityStyle>)
    ensures
        r == spec_decode_activity_style(*v),
{
    match v {
        JsonValue::Object(f) => match (
            field_opt_string(f, "border_color"),
            field_opt_string(f, "custom_class"),
        ) {
            (Some(border_color), Some(custom_class)) => Some(
                ActivityStyle { border_color, custom_class },
            ),
            _ => None,
        },
        _ => None,
    }
}

/// One activity point: an object carrying every [`ActivityPoint`]
/// field, the entry kind under `type`.
pub open spec fn spec_decode_activity_point(v: JsonValue) -> Option<ActivityPoint> {
    match v {
        JsonValue::Object(f) => {
            let fs = f@;
            if spec_field_usize(fs, "id"@) is Some && spec_field_string(fs, "type"@) is Some
                && spec_field_string(fs, "polarity"@) is Some && spec_field_string(
                fs,
                "reason"@,
            ) is Some && spec_field_isize(fs, "score"@) is Some && spec_field_string(
                fs,
                "timestamp"@,
            ) is Some && spec_field_opt_string(fs, "timestamp_custom_time"@) is Some && (match
                obj_get(fs, "style"@) {
                Some(sv) => spec_decode_activity_style(sv) is Some,
                None => false,
            }) && spec_field_string(fs, "pupil_name"@) is Some && spec_field_opt_string(
                fs,
                "lesson_name"@,
            ) is Some && spec_field_string(fs, "teacher_name"@) is Some && spec_field_opt_string(
                fs,
                "room_name"@,
            ) is Some && spec_field_opt_string(fs, "note"@) is Some && spec_field_bool(
                fs,
                "_can_delete"@,
            ) is Some && spec_field_opt_string(fs, "badges"@) is Some && spec_field_opt_string(
                fs,
                "detention_date"@,
            ) is Some && spec_field_opt_string(fs, "detention_time"@) is Some
                && spec_field_opt_string(fs, "detention_location"@) is Some
                && spec_field_opt_string(fs, "detention_type"@) is Some {
                Some(
                    ActivityPoint {
                        id: spec_field_usize(fs, "id"@)->Some_0,
                        point_type: spec_field_string(fs, "type"@)->Some_0,
                        polarity: spec_field_string(fs, "polarity"@)->Some_0,
                        reason: spec_field_string(fs, "reason"@)->Some_0,
                        score: spec_field_isize(fs, "score"@)->Some_0,
                        timestamp: spec_field_string(fs, "timestamp"@)->Some_0,
                        timestamp_custom_time: spec_field_opt_string(
                            fs,
                            "timestamp_custom_time"@,
                        )->Some_0,
                        style: spec_decode_activity_style(obj_get(fs, "style"@)->Some_0)->Some_0,
                        pupil_name: spec_field_string(fs, "pupil_name"@)->Some_0,
                        lesson_name: spec_field_opt_string(fs, "lesson_name"@)->Some_0,
                        teacher_name: spec_field_string(fs, "teacher_name"@)->Some_0,
                        room_name: spec_field_opt_string(fs, "room_name"@)->Some_0,
                        note: spec_field_opt_string(fs, "note"@)->Some_0,
                        _can_delete: spec_field_bool(fs, "_can_delete"@)->Some_0,
                        badges: spec_field_opt_string(fs, "badges"@)->Some_0,
                        detention_date: spec_field_opt_string(fs, "detention_date"@)->Some_0,
                        detention_time: spec_field_opt_string(fs, "detention_time"@)->Some_0,
                        detention_location: spec_field_opt_string(
                            fs,
                            "detention_location"@,
                        )->Some_0,
                        detention_type: spec_field_opt_string(fs, "detention_type"@)->Some_0,
                    },
                )
            } else {
                None
            }
        },
        _ => None,
    }
}

/// Decodes one activity point.
#[verifier::rlimit(100)]
#[verifier::spinoff_prover]
pub fn decode_activity_point(v: &JsonValue) -> (r: Option<ActivityPoint>)
    ensures
        r == spec_decode_activity_point(*v),
{
    let fields = match v {
        JsonValue::Object(f) => f,
        _ => { return None },
    };
    let id = match field_usize(fields, "id") {
        Some(x) => x,
        None => { return None },
    };
    let point_type = match field_string(fields, "type") {
        Some(x) => x,
        None => { return None },
    };
    let polarity = match field_string(fields, "polarity") {
        Some(x) => x,
        None => { return None },
    };
    let reason = match field_string(fields, "reason") {
        Some(x) => x,
        None => { return None },
    };
    let score = match field_isize(fields, "score") {
        Some(x) => x,
        None => { return None },
    };
    let timestamp = match field_string(fields, "timestamp") {
        Some(x) => x,
        None => { return None },
    };
    let timestamp_custom_time = match field_opt_string(fields, "timestamp_custom_time") {
        Some(x) => x,
        None => { return None },
    };
    let style_value = match get_field(fields, "style") {
        Some(x) => x,
        None => { return None },
    };
    let style = match decode_activity_style(style_value) {
        Some(x) => x,
        None => { return None },
    };
    let pupil_name = match field_string(fields, "pupil_name") {
        Some(x) => x,
        None => { return None },
    };
    let lesson_name = match field_opt_string(fields, "lesson_name") {
        Some(x) => x,
        None => { return None },
    };
    let teacher_name = match field_string(fields, "teacher_name") {
        Some(x) => x,
        None => { return None },
    };
    let room_name = match field_opt_string(fields, "room_name") {
        Some(x) => x,
        None => { return None },
    };
    let note = match field_opt_string(fields, "note") {
        Some(x) => x,
        None => { return None },
    };
    let can_delete = match field_bool(fields, "_can_delete") {
        Some(x) => x,
        None => { return None },
    };
    let badges = match field_opt_string(fields, "badges") {
        Some(x) => x,
        None => { return None },
    };
    let detention_date = match field_opt_string(fields, "detention_date") {
        Some(x) => x,
        None => { return None },
    };
    let detention_time = match field_opt_string(fields, "detention_time") {
        Some(x) => x,
        None => { return None },
    };
    let detention_location = match field_opt_string(fields, "detention_location") {
        Some(x) => x,
        None => { return None },
    };
    let detention_type = match field_opt_string(fields, "detention_type") {
        Some(x) => x,
        None => { return None },
    };
    Some(
        ActivityPoint {
            id,
            point_type,
            polarity,
            reason,
            score,
            timestamp,
            timestamp_custom_time,
            style,
            pupil_name,
            lesson_name,
            teacher_name,
            room_name,
            note,
            _can_delete: can_delete,
            badges,
            detention_date,
            detention_time,
            detention_location,
            detention_type,
        },
    )
}

/// Activity metadata.
pub open spec fn spec_decode_activity_meta(v: JsonValue) -> Option<ActivityMeta> {
    match v {
        JsonValue::Object(f) => {
            let fs = f@;
            if spec_field_string(fs, "start_date"@) is Some && spec_field_string(
                fs,
                "end_date"@,
            ) is Some && spec_field_string(fs, "step_size"@) is Some && spec_field_opt_last_id(
                fs,
                "last_id"@,
            ) is Some && spec_field_string(fs, "detention_alias_uc"@) is Some {
                Some(
                    ActivityMeta {
                        start_date: spec_field_string(fs, "start_date"@)->Some_0,
                        end_date: spec_field_string(fs, "end_date"@)->Some_0,
                        step_size: spec_field_string(fs, "step_size"@)->Some_0,
                        last_id: spec_field_opt_last_id(fs, "last_id"@)->Some_0,
                        detention_alias_uc: spec_field_string(fs, "detention_alias_uc"@)->Some_0,
                    },
                )
            } else {
                None
            }
        },
        _ => None,
    }
}

/// Decodes activity metadata.
pub fn decode_activity_meta(v: &JsonValue) -> (r: Option<ActivityMeta>)
    ensures
        r == spec_decode_activity_meta(*v),
{
    let fields = match v {
        JsonValue::Object(f) => f,
        _ => { return None },
    };
    let start_date = match field_string(fields, "start_date") {
        Some(x) => x,
        None => { return None },
    };
    let end_date = match field_string(fields, "end_date") {
        Some(x) => x,
        None => { return None },
    };
    let step_size = match field_string(fields, "step_size") {
        Some(x) => x,
        None => { return None },
    };
    let last_id = match field_opt_last_id(fields, "last_id") {
        Some(x) => x,
        None => { return None },
    };
    let detention_alias_uc = match field_string(fields, "detention_alias_uc") {
        Some(x) => x,
        None => { return None },
    };
    Some(ActivityMeta { start_date, end_date, step_size, last_id, detention_alias_uc })
}

/// The element decoder of an activity page, as a spec value.
pub open spec fn activity_point_decoder() -> spec_fn(JsonValue) -> Option<ActivityPoint> {
    |v: JsonValue| spec_decode_activity_point(v)
}

/// Decodes the elements of an activity page.
pub fn decode_activity_points(items: &Vec<JsonValue>) -> (r: Option<Vec<ActivityPoint>>)
    ensures
        match r {
            Some(points) => spec_decode_seq(items@, activity_point_decoder()) == Some(points@),
            None => spec_decode_seq(items@, activity_point_decoder()) is None,
        },
{
    let mut out: Vec<ActivityPoint> = Vec::new();
    let mut i: usize = 0;
    proof {
        assert(items@.take(0) =~= Seq::<JsonValue>::empty());
    }
    while i < items.len()
        invariant
            i <= items@.len(),
            spec_decode_seq(items@.take(i as int), activity_point_decoder()) == Some(out@),
        decreases items@.len() - i,
    {
        match decode_activity_point(&items[i]) {
            Some(p) => {
                out.push(p);
            },
            None => {
                proof {
                    lemma_decode_seq_fail(items@, activity_point_decoder(), i as int);
                }
                return None;
            },
        }
        proof {
            lemma_decode_seq_step(items@, activity_point_decoder(), i as int);
        }
        i = i + 1;
    }
    proof {
        assert(items@.take(items@.len() as int) =~= items@);
    }
    Some(out)
}

/// An activity envelope body holds an array of points under `data`
/// and activity metadata under `meta`.
pub open spec fn spec_activity_payload_ok(doc: JsonValue) -> bool {
    match doc {
        JsonValue::Object(fs) => match (obj_get(fs@, "data"@), obj_get(fs@, "meta"@)) {
            (Some(JsonValue::Array(items)), Some(mv)) => spec_decode_seq(
                items@,
                activity_point_decoder(),
            ) is Some && spec_decode_activity_meta(mv) is Some,
            _ => false,
        },
        _ => false,
    }
}

/// The typed reading of an activity envelope body.
pub open spec fn spec_activity_payload_matches(resp: Activity, doc: JsonValue) -> bool {
    match doc {
        JsonValue::Object(fs) => match (obj_get(fs@, "data"@), obj_get(fs@, "meta"@)) {
            (Some(JsonValue::Array(items)), Some(mv)) => spec_decode_seq(
                items@,
                activity_point_decoder(),
            ) == Some(resp.data@) && spec_decode_activity_meta(mv) == Some(resp.meta),
            _ => false,
        },
        _ => false,
    }
}

/// Interprets the body of an activity response: the classified
/// envelope, then the typed page.
pub fn parse_activity_response(text: &str) -> (r: Result<Activity, ErrorResponse>)
    ensures
        match r {
            Ok(resp) => spec_classify(text@) is Ok && spec_activity_payload_ok(
                json_of(text@)->Some_0,
            ) && spec_activity_payload_matches(resp, json_of(text@)->Some_0),
            Err(e) => (spec_classify(text@) matches Err(e0) && e == e0) || (spec_classify(text@)
                is Ok && !spec_activity_payload_ok(json_of(text@)->Some_0)
                && e == ErrorResponse::SerdeJsonParsingError),
        },
{
    let body = match cc_parse(text) {
        Ok(b) => b,
        Err(e) => { return Err(e) },
    };
    match parse_json(body.as_str()) {
        Some(JsonValue::Object(fields)) => {
            let dv = match get_field(&fields, "data") {
                Some(x) => x,
                None => { return Err(ErrorResponse::SerdeJsonParsingError) },
            };
            let items = match dv {
                JsonValue::Array(items) => items,
                _ => { return Err(ErrorResponse::SerdeJsonParsingError) },
            };
            let mv = match get_field(&fields, "meta") {
                Some(x) => x,
                None => { return Err(ErrorResponse::SerdeJsonParsingError) },
            };
            let data = match decode_activity_points(items) {
                Some(x) => x,
                None => { return Err(ErrorResponse::SerdeJsonParsingError) },
            };
            let meta = match decode_activity_meta(mv) {
                Some(x) => x,
                None => { return Err(ErrorResponse::SerdeJsonParsingError) },
            };
            Ok(SuccessResponse { data, meta })
        },
        _ => Err(ErrorResponse::SerdeJsonParsingError),
    }
}

/// The typed reading of an activity body is pinned by the document
/// alone: two responses decoded from the same body agree on every
/// entry and on the metadata, so decoding a body twice yields
/// structurally equal values.
pub proof fn lemma_activity_decode_deterministic(doc: JsonValue, r1: Activity, r2: Activity)
    requires
        spec_activity_payload_matches(r1, doc),
        spec_activity_payload_matches(r2, doc),
    ensures
        r1.data@ == r2.data@,
        r1.meta == r2.meta,
{
}

/// The encoded query parts of an activity request, in the order the
/// request carries them: `to`, `from`, then the cursor.
pub open spec fn spec_activity_parts(o: ActivityOptions) -> Seq<Seq<char>> {
    let ps = Seq::<Seq<char>>::empty();
    let ps = if o.to is Some {
        ps.push(form_pair_encoded("to"@, o.to->0.spec_format()))
    } else {
        ps
    };
    let ps = if o.from is Some {
        ps.push(form_pair_encoded("from"@, o.from->0.spec_format()))
    } else {
        ps
    };
    if o.last_id is Some {
        ps.push(form_pair_encoded("last_id"@, o.last_id->0@))
    } else {
        ps
    }
}

/// The query string of an activity request.
pub open spec fn spec_activity_query(options: Option<ActivityOptions>) -> Seq<char> {
    match options {
        None => Seq::empty(),
        Some(o) => spec_join_parts(spec_activity_parts(o)),
    }
}

/// The path of an activity request for a given student and options.
pub open spec fn spec_activity_path(c: Client, options: Option<ActivityOptions>) -> Seq<char> {
    "/activity/"@ + c.student_id@ + "?"@ + spec_activity_query(options)
}

impl Client {
    /// Prepares one page request of the student's activity feed.
    ///
    /// This request fetches a single page; walk the feed with
    /// [`ActivityPager`] to materialize it fully.
    pub fn activity_request(&self, options: &Option<ActivityOptions>) -> (r: PreparedRequest)
        requires
            self.student_id@.len() > 0,
        ensures
            spec_authed_request(r, *self, Method::Get, spec_activity_path(*self, *options)),
            r.content_type is None,
            r.body is None,
    {
        let mut parts: Vec<String> = Vec::new();
        match options {
            Some(o) => {
                match &o.to {
                    Some(d) => {
                        let f = d.format();
                        parts.push(form_encode_pair("to", f.as_str()));
                    },
                    None => {},
                }
                match &o.from {
                    Some(d) => {
                        let f = d.format();
                        parts.push(form_encode_pair("from", f.as_str()));
                    },
                    None => {},
                }
                match &o.last_id {
                    Some(l) => {
                        parts.push(form_encode_pair("last_id", l.as_str()));
                    },
                    None => {},
                }
                proof {
                    assert(str_views(parts@) =~= spec_activity_parts(*o));
                }
            },
            None => {},
        }
        let query = join_parts(&parts);
        let mut path = String::from_str("/activity/");
        path.append(self.student_id.as_str());
        path.append("?");
        path.append(query.as_str());
        proof {
            if options is None {
                assert(str_views(parts@) =~= Seq::<Seq<char>>::empty());
            }
            assert(path@ =~= spec_activity_path(*self, *options));
        }
        self.build_get(path.as_str())
    }
}

/// Walks the activity feed page by page, accumulating every entry.
///
/// Feed each fetched page in with [`ActivityPager::feed_page`]; the
/// first empty page finishes the walk, as the feed is unbounded and
/// signals exhaustion only that way.
#[derive(Debug, PartialEq, Eq)]
pub struct ActivityPager {
    /// Every entry collected so far, in arrival order.
    pub collected: Vec<ActivityPoint>,
    /// The cursor for the next page: the id of the last entry seen.
    pub last_id: Option<String>,
    /// How many pages have been fed in.
    pub calls: u64,
    /// Whether an empty page has ended the walk.
    pub finished: bool,
}

impl ActivityPager {
    /// Starts a walk: nothing collected, no cursor, no calls yet.
    pub fn new() -> (p: ActivityPager)
        ensures
            p.collected@ == Seq::<ActivityPoint>::empty(),
            p.last_id is None,
            p.calls == 0,
            !p.finished,
    {
        ActivityPager { collected: Vec::new(), last_id: None, calls: 0, finished: false }
    }

    /// The options of the next page request: the walk's date range
    /// and the current cursor.
    pub fn next_options(&self, options: &FullActivityOptions) -> (o: ActivityOptions)
        ensures
            o.from == Some(options.from),
            o.to == Some(options.to),
            o.last_id == self.last_id,
    {
        let last_id = match &self.last_id {
            Some(l) => Some(l.clone()),
            None => None,
        };
        ActivityOptions { from: Some(options.from), to: Some(options.to), last_id }
    }

    /// Accounts one fetched page: an empty page finishes the walk;
    /// otherwise the entries are appended and the cursor becomes the
    /// decimal id of the page's last entry.
    pub fn feed_page(&mut self, page: Vec<ActivityPoint>)
        requires
            !old(self).finished,
            old(self).calls < u64::MAX,
        ensures
            final(self).calls == old(self).calls + 1,
            page@.len() == 0 ==> final(self).finished && final(self).collected
                == old(self).collected && final(self).last_id == old(self).last_id,
            page@.len() > 0 ==> {
                &&& !final(self).finished
                &&& final(self).collected@ == old(self).collected@ + page@
                &&& match final(self).last_id {
                    Some(l) => l@ == dec_rep(page@.last().id as nat),
                    None => false,
                }
            },
    {
        self.calls = self.calls + 1;
        if page.len() == 0 {
            self.finished = true;
        } else {
            let last = &page[page.len() - 1];
            self.last_id = Some(u64_to_string(last.id as u64));
            let mut page = page;
            self.collected.append(&mut page);
        }
    }
}

} // verus!
