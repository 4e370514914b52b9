//! Behaviour: positive/negative point timelines and reason counts.

use vstd::prelude::*;

use crate::client::{spec_authed_request, Client, Method, PreparedRequest};
use crate::codec::{form_encode_pair, form_pair_encoded, join_parts, spec_join_parts, str_views};
use crate::date::Date;
use crate::envelope::{cc_parse, spec_classify, SuccessResponse};
use crate::error::ErrorResponse;
use crate::json::{
    field_isize, field_string, field_strings, field_usize, get_field, json_of,
    lemma_decode_seq_fail, lemma_decode_seq_step, obj_get, parse_json, spec_decode_seq,
    spec_field_isize, spec_field_string, spec_field_strings, spec_field_usize, JsonValue,
};

verus! {

/// Styling attached to a behaviour entry.
#[derive(Debug, PartialEq, Eq)]
pub struct BehaviourStyle {
    pub border_color: Option<String>,
    pub custom_class: Option<String>,
}

/// One step of the behaviour timeline.
#[derive(Debug, PartialEq, Eq)]
pub struct BehaviourTimelinePoint {
    pub positive: usize,
    pub negative: isize,
    pub name: String,
    pub start: String,
    pub end: String,
}

/// Counts keyed by reason, in the order the upstream object carries
/// them.
pub type ReasonCounts = Vec<(String, usize)>;

/// The behaviour payload.
#[derive(Debug, PartialEq, Eq)]
pub struct BehaviourData {
    pub timeline: Vec<BehaviourTimelinePoint>,
    pub positive_reasons: ReasonCounts,
    pub negative_reasons: ReasonCounts,
    pub other_positive: Vec<String>,
    pub other_negative: Vec<String>,
    pub other_positive_count: Vec<ReasonCounts>,
    pub other_negative_count: Vec<ReasonCounts>,
}

/// Behaviour metadata.
#[derive(Debug, PartialEq, Eq)]
pub struct BehaviourMeta {
    pub start_date: String,
    pub end_date: String,
    pub step_size: String,
}

pub type Behaviour = SuccessResponse<BehaviourData, BehaviourMeta>;

/// Options of a behaviour request: the optional date range.
#[derive(Debug, PartialEq, Eq, Structural)]
pub struct BehaviourOptions {
    pub from: Option<Date>,
    pub to: Option<Date>,
}

/// One timeline step.
pub open spec fn spec_decode_timeline_point(v: JsonValue) -> Option<BehaviourTimelinePoint> {
    match v {
        JsonValue::Object(f) => {
            let fs = f@;
            if spec_field_usize(fs, "positive"@) is Some && spec_field_isize(fs, "negative"@)
                is Some && spec_field_string(fs, "name"@) is Some && spec_field_string(
                fs,
                "start"@,
            ) is Some && spec_field_string(fs, "end"@) is Some {
                Some(
                    BehaviourTimelinePoint {
                        positive: spec_field_usize(fs, "positive"@)->Some_0,
                        negative: spec_field_isize(fs, "negative"@)->Some_0,
                        name: spec_field_string(fs, "name"@)->Some_0,
                        start: spec_field_string(fs, "start"@)->Some_0,
                        end: spec_field_string(fs, "end"@)->Some_0,
                    },
                )
            } else {
                None
            }
        },
        _ => None,
    }
}

/// Decodes one timeline step.
pub fn decode_timeline_point(v: &JsonValue) -> (r: Option<BehaviourTimelinePoint>)
    ensures
        r == spec_decode_timeline_point(*v),
{
    let fields = match v {
        JsonValue::Object(f) => f,
        _ => { return None },
    };
    let positive = match field_usize(fields, "positive") {
        Some(x) => x,
        None => { return None },
    };
    let negative = match field_isize(fields, "negative") {
        Some(x) => x,
        None => { return None },
    };
    let name = match field_string(fields, "name") {
        Some(x) => x,
        None => { return None },
    };
    let start = match field_string(fields, "start") {
        Some(x) => x,
        None => { return None },
    };
    let end = match field_string(fields, "end") {
        Some(x) => x,
        None => { return None },
    };
    Some(BehaviourTimelinePoint { positive, negative, name, start, end })
}

/// The element decoder of the timeline, as a spec value.
pub open spec fn timeline_point_decoder() -> spec_fn(JsonValue) -> Option<
    BehaviourTimelinePoint,
> {
    |v: JsonValue| spec_decode_timeline_point(v)
}

/// Decodes the timeline.
pub fn decode_timeline(items: &Vec<JsonValue>) -> (r: Option<Vec<BehaviourTimelinePoint>>)
    ensures
        match r {
            Some(out) => spec_decode_seq(items@, timeline_point_decoder()) == Some(out@),
            None => spec_decode_seq(items@, timeline_point_decoder()) is None,
        },
{
    let mut out: Vec<BehaviourTimelinePoint> = Vec::new();
    let mut i: usize = 0;
    proof {
        assert(items@.take(0) =~= Seq::<JsonValue>::empty());
    }
    while i < items.len()
        invariant
            i <= items@.len(),
            spec_decode_seq(items@.take(i as int), timeline_point_decoder()) == Some(out@),
        decreases items@.len() - i,
    {
        match decode_timeline_point(&items[i]) {
            Some(p) => {
                out.push(p);
            },
            None => {
                proof {
                    lemma_decode_seq_fail(items@, timeline_point_decoder(), i as int);
                }
                return None;
            },
        }
        proof {
            lemma_decode_seq_step(items@, timeline_point_decoder(), i as int);
        }
        i = i + 1;
    }
    proof {
        assert(items@.take(items@.len() as int) =~= items@);
    }
    Some(out)
}

/// An object whose every field value is a count.
pub open spec fn spec_counts_ok(ofs: Seq<(String, JsonValue)>) -> bool {
    forall|i: int|
        0 <= i < ofs.len() ==> ((#[trigger] ofs[i].1) matches JsonValue::UInt(u) && u
            <= usize::MAX)
}

/// The typed reading of a count object, keys kept in order.
pub open spec fn spec_counts_matches(out: Seq<(String, usize)>, ofs: Seq<(String, JsonValue)>,) -> bool {
    &&& out.len() == ofs.len()
    &&& forall|i: int|
        0 <= i < ofs.len() ==> ((#[trigger] out[i]).0 == ofs[i].0 && ofs[i].1 == JsonValue::UInt(
            out[i].1 as u64,
        ))
}

/// Decodes a count object.
pub fn decode_counts(ofs: &Vec<(String, JsonValue)>) -> (r: Option<ReasonCounts>)
    ensures
        match r {
            Some(out) => spec_counts_ok(ofs@) && spec_counts_matches(out@, ofs@),
            None => !spec_counts_ok(ofs@),
        },
{
    let mut out: ReasonCounts = Vec::new();
    let mut i: usize = 0;
    #[verifier::loop_isolation(false)]
    while i < ofs.len()
        invariant
            i <= ofs@.len(),
            out@.len() == i,
            forall|j: int|
                0 <= j < i ==> ((#[trigger] ofs@[j].1) matches JsonValue::UInt(u) && u
                    <= usize::MAX),
            forall|j: int|
                0 <= j < i ==> ((#[trigger] out@[j]).0 == ofs@[j].0 && ofs@[j].1
                    == JsonValue::UInt(out@[j].1 as u64)),
        decreases ofs@.len() - i,
    {
        let count = match &ofs[i].1 {
            JsonValue::UInt(u) => if *u <= usize::MAX as u64 {
                *u as usize
            } else {
                proof {
                    if spec_counts_ok(ofs@) {
                        assert(ofs@[i as int].1 matches JsonValue::UInt(u2) && u2 <= usize::MAX);
                    }
                }
                return None;
            },
            _ => {
                proof {
                    if spec_counts_ok(ofs@) {
                        assert(ofs@[i as int].1 matches JsonValue::UInt(u2) && u2 <= usize::MAX);
                    }
                }
                return None;
            },
        };
        out.push((ofs[i].0.clone(), count));
        i = i + 1;
    }
    Some(out)
}

/// A reason-count mapping, which upstream sends as an empty array
/// when there is nothing to report: the sentinel decodes to an empty
/// mapping, an object to its counts, anything else fails.
pub open spec fn spec_count_map_ok(v: JsonValue) -> bool {
    match v {
        JsonValue::Array(items) => items@.len() == 0,
        JsonValue::Object(ofs) => spec_counts_ok(ofs@),
        _ => false,
    }
}

/// The typed reading of a sentinel-shaped reason-count mapping.
pub open spec fn spec_count_map_matches(out: Seq<(String, usize)>, v: JsonValue) -> bool {
    match v {
        JsonValue::Array(items) => items@.len() == 0 && out.len() == 0,
        JsonValue::Object(ofs) => spec_counts_matches(out, ofs@),
        _ => false,
    }
}

/// Decodes a sentinel-shaped reason-count mapping.
pub fn decode_count_map(v: &JsonValue) -> (r: Option<ReasonCounts>)
    ensures
        match r {
            Some(out) => spec_count_map_ok(*v) && spec_count_map_matches(out@, *v),
            None => !spec_count_map_ok(*v),
        },
{
    match v {
        JsonValue::Array(items) => if items.len() == 0 {
            Some(Vec::new())
        } else {
            None
        },
        JsonValue::Object(ofs) => decode_counts(ofs),
        _ => None,
    }
}

/// The behaviour payload shape.
pub open spec fn spec_behaviour_data_ok(dfs: Seq<(String, JsonValue)>) -> bool {
    &&& match obj_get(dfs, "timeline"@) {
        Some(JsonValue::Array(items)) => spec_decode_seq(items@, timeline_point_decoder())
            is Some,
        _ => false,
    }
    &&& match obj_get(dfs, "positive_reasons"@) {
        Some(v) => spec_count_map_ok(v),
        None => false,
    }
    &&& match obj_get(dfs, "negative_reasons"@) {
        Some(v) => spec_count_map_ok(v),
        None => false,
    }
    &&& spec_field_strings(dfs, "other_positive"@) is Some
    &&& spec_field_strings(dfs, "other_negative"@) is Some
    &&& match obj_get(dfs, "other_positive_count"@) {
        Some(JsonValue::Array(items)) => forall|i: int|
            0 <= i < items@.len() ==> ((#[trigger] items@[i]) matches JsonValue::Object(ofs)
                && spec_counts_ok(ofs@)),
        _ => false,
    }
    &&& match obj_get(dfs, "other_negative_count"@) {
        Some(JsonValue::Array(items)) => forall|i: int|
            0 <= i < items@.len() ==> ((#[trigger] items@[i]) matches JsonValue::Object(ofs)
                && spec_counts_ok(ofs@)),
        _ => false,
    }
}

/// The typed reading of the behaviour payload.
pub open spec fn spec_behaviour_data_matches(d: BehaviourData, dfs: Seq<(String, JsonValue)>,) -> bool {
    &&& match obj_get(dfs, "timeline"@) {
        Some(JsonValue::Array(items)) => spec_decode_seq(items@, timeline_point_decoder())
            == Some(d.timeline@),
        _ => false,
    }
    &&& match obj_get(dfs, "positive_reasons"@) {
        Some(v) => spec_count_map_matches(d.positive_reasons@, v),
        None => false,
    }
    &&& match obj_get(dfs, "negative_reasons"@) {
        Some(v) => spec_count_map_matches(d.negative_reasons@, v),
        None => false,
    }
    &&& spec_field_strings(dfs, "other_positive"@) == Some(d.other_positive@)
    &&& spec_field_strings(dfs, "other_negative"@) == Some(d.other_negative@)
    &&& match obj_get(dfs, "other_positive_count"@) {
        Some(JsonValue::Array(items)) => d.other_positive_count@.len() == items@.len() && forall|
            i: int,
        |
            0 <= i < items@.len() ==> ((#[trigger] items@[i]) matches JsonValue::Object(ofs)
                && spec_counts_matches(d.other_positive_count@[i]@, ofs@)),
        _ => false,
    }
    &&& match obj_get(dfs, "other_negative_count"@) {
        Some(JsonValue::Array(items)) => d.other_negative_count@.len() == items@.len() && forall|
            i: int,
        |
            0 <= i < items@.len() ==> ((#[trigger] items@[i]) matches JsonValue::Object(ofs)
                && spec_counts_matches(d.other_negative_count@[i]@, ofs@)),
        _ => false,
    }
}

/// Decodes an array of plain count objects.
fn decode_count_list(items: &Vec<JsonValue>) -> (r: Option<Vec<ReasonCounts>>)
    ensures
        match r {
            Some(out) => out@.len() == items@.len() && forall|i: int|
                0 <= i < items@.len() ==> ((#[trigger] items@[i]) matches JsonValue::Object(ofs)
                    && spec_counts_ok(ofs@) && spec_counts_matches(out@[i]@, ofs@)),
            None => !(forall|i: int|
                0 <= i < items@.len() ==> ((#[trigger] items@[i]) matches JsonValue::Object(ofs)
                    && spec_counts_ok(ofs@))),
        },
{
    let mut out: Vec<ReasonCounts> = Vec::new();
    let mut i: usize = 0;
    #[verifier::loop_isolation(false)]
    while i < items.len()
        invariant
            i <= items@.len(),
            out@.len() == i,
            forall|j: int|
                0 <= j < i ==> ((#[trigger] items@[j]) matches JsonValue::Object(ofs)
                    && spec_counts_ok(ofs@) && spec_counts_matches(out@[j]@, ofs@)),
        decreases items@.len() - i,
    {
        let ofs = match &items[i] {
            JsonValue::Object(ofs) => ofs,
            _ => {
                proof {
                    if forall|k: int|
                        0 <= k < items@.len() ==> ((#[trigger] items@[k]) matches
                        JsonValue::Object(ofs2) && spec_counts_ok(ofs2@)) {
                        assert(items@[i as int] matches JsonValue::Object(ofs2) && spec_counts_ok(
                            ofs2@,
                        ));
                    }
                }
                return None;
            },
        };
        let counts = match decode_counts(ofs) {
            Some(c) => c,
            None => {
                proof {
                    if forall|k: int|
                        0 <= k < items@.len() ==> ((#[trigger] items@[k]) matches
                        JsonValue::Object(ofs2) && spec_counts_ok(ofs2@)) {
                        assert(items@[i as int] matches JsonValue::Object(ofs2) && spec_counts_ok(
                            ofs2@,
                        ));
                    }
                }
                return None;
            },
        };
        out.push(counts);
        i = i + 1;
    }
    Some(out)
}

/// Decodes the behaviour payload.
pub fn decode_behaviour_data(dfs: &Vec<(String, JsonValue)>) -> (r: Option<BehaviourData>)
    ensures
        match r {
            Some(d) => spec_behaviour_data_ok(dfs@) && spec_behaviour_data_matches(d, dfs@),
            None => !spec_behaviour_data_ok(dfs@),
        },
{
    let timeline_items = match get_field(dfs, "timeline") {
        Some(JsonValue::Array(items)) => items,
        _ => { return None },
    };
    let timeline = match decode_timeline(timeline_items) {
        Some(x) => x,
        None => { return None },
    };
    let pv = match get_field(dfs, "positive_reasons") {
        Some(x) => x,
        None => { return None },
    };
    let positive_reasons = match decode_count_map(pv) {
        Some(x) => x,
        None => { return None },
    };
    let nv = match get_field(dfs, "negative_reasons") {
        Some(x) => x,
        None => { return None },
    };
    let negative_reasons = match decode_count_map(nv) {
        Some(x) => x,
        None => { return None },
    };
    let other_positive = match field_strings(dfs, "other_positive") {
        Some(x) => x,
        None => { return None },
    };
    let other_negative = match field_strings(dfs, "other_negative") {
        Some(x) => x,
        None => { return None },
    };
    let opc_items = match get_field(dfs, "other_positive_count") {
        Some(JsonValue::Array(items)) => items,
        _ => { return None },
    };
    let other_positive_count = match decode_count_list(opc_items) {
        Some(x) => x,
        None => { return None },
    };
    let onc_items = match get_field(dfs, "other_negative_count") {
        Some(JsonValue::Array(items)) => items,
        _ => { return None },
    };
    let other_negative_count = match decode_count_list(onc_items) {
        Some(x) => x,
        None => { return None },
    };
    Some(
        BehaviourData {
            timeline,
            positive_reasons,
            negative_reasons,
            other_positive,
            other_negative,
            other_positive_count,
            other_negative_count,
        },
    )
}

/// Behaviour metadata.
pub open spec fn spec_decode_behaviour_meta(v: JsonValue) -> Option<BehaviourMeta> {
    match v {
        JsonValue::Object(f) => {
            let fs = f@;
            if spec_field_string(fs, "start_date"@) is Some && spec_field_string(fs, "end_date"@)
                is Some && spec_field_string(fs, "step_size"@) is Some {
                Some(
                    BehaviourMeta {
                        start_date: spec_field_string(fs, "start_date"@)->Some_0,
                        end_date: spec_field_string(fs, "end_date"@)->Some_0,
                        step_size: spec_field_string(fs, "step_size"@)->Some_0,
                    },
                )
            } else {
                None
            }
        },
        _ => None,
    }
}

/// Decodes behaviour metadata.
pub fn decode_behaviour_meta(v: &JsonValue) -> (r: Option<BehaviourMeta>)
    ensures
        r == spec_decode_behaviour_meta(*v),
{
    let fields = match v {
        JsonValue::Object(f) => f,
        _ => { return None },
    };
    let start_date = match field_string(fields, "start_date") {
        Some(x) => x,
        None => { return None },
    };
    let end_date = match field_string(fields, "end_date") {
        Some(x) => x,
        None => { return None },
    };
    let step_size = match field_string(fields, "step_size") {
        Some(x) => x,
        None => { return None },
    };
    Some(BehaviourMeta { start_date, end_date, step_size })
}

/// The behaviour payload shape, envelope level.
pub open spec fn spec_behaviour_payload_ok(doc: JsonValue) -> bool {
    match doc {
        JsonValue::Object(fs) => match (obj_get(fs@, "data"@), obj_get(fs@, "meta"@)) {
            (Some(JsonValue::Object(dfs)), Some(mv)) => spec_behaviour_data_ok(dfs@)
                && spec_decode_behaviour_meta(mv) is Some,
            _ => false,
        },
        _ => false,
    }
}

/// The typed reading of a behaviour body.
pub open spec fn spec_behaviour_payload_matches(resp: Behaviour, doc: JsonValue) -> bool {
    match doc {
        JsonValue::Object(fs) => match (obj_get(fs@, "data"@), obj_get(fs@, "meta"@)) {
            (Some(JsonValue::Object(dfs)), Some(mv)) => spec_behaviour_data_matches(
                resp.data,
                dfs@,
            ) && spec_decode_behaviour_meta(mv) == Some(resp.meta),
            _ => false,
        },
        _ => false,
    }
}

/// Interprets the body of a behaviour response.
pub fn parse_behaviour_response(text: &str) -> (r: Result<Behaviour, ErrorResponse>)
    ensures
        match r {
            Ok(resp) => spec_classify(text@) is Ok && spec_behaviour_payload_ok(
                json_of(text@)->Some_0,
            ) && spec_behaviour_payload_matches(resp, json_of(text@)->Some_0),
            Err(e) => (spec_classify(text@) matches Err(e0) && e == e0) || (spec_classify(text@)
                is Ok && !spec_behaviour_payload_ok(json_of(text@)->Some_0)
                && e == ErrorResponse::SerdeJsonParsingError),
        },
{
    let body = match cc_parse(text) {
        Ok(b) => b,
        Err(e) => { return Err(e) },
    };
    match parse_json(body.as_str()) {
        Some(JsonValue::Object(fields)) => {
            let dfs = match get_field(&fields, "data") {
                Some(JsonValue::Object(dfs)) => dfs,
                _ => { return Err(ErrorResponse::SerdeJsonParsingError) },
            };
            let mv = match get_field(&fields, "meta") {
                Some(x) => x,
                None => { return Err(ErrorResponse::SerdeJsonParsingError) },
            };
            let data = match decode_behaviour_data(dfs) {
                Some(x) => x,
                None => { return Err(ErrorResponse::SerdeJsonParsingError) },
            };
            let meta = match decode_behaviour_meta(mv) {
                Some(x) => x,
                None => { return Err(ErrorResponse::SerdeJsonParsingError) },
            };
            Ok(SuccessResponse { data, meta })
        },
        _ => Err(ErrorResponse::SerdeJsonParsingError),
    }
}

/// The encoded query parts of a behaviour request.
pub open spec fn spec_behaviour_parts(o: BehaviourOptions) -> Seq<Seq<char>> {
    let ps = Seq::<Seq<char>>::empty();
    let ps = if o.to is Some {
        ps.push(form_pair_encoded("to"@, o.to->0.spec_format()))
    } else {
        ps
    };
    if o.from is Some {
        ps.push(form_pair_encoded("from"@, o.from->0.spec_format()))
    } else {
        ps
    }
}

/// The query string of a behaviour request.
pub open spec fn spec_behaviour_query(options: Option<BehaviourOptions>) -> Seq<char> {
    match options {
        None => Seq::empty(),
        Some(o) => spec_join_parts(spec_behaviour_parts(o)),
    }
}

impl Client {
    /// Prepares the request for the student's behaviour.
    pub fn behaviour_request(&self, options: &Option<BehaviourOptions>) -> (r: PreparedRequest)
        requires
            self.student_id@.len() > 0,
        ensures
            spec_authed_request(
                r,
                *self,
                Method::Get,
                "/behaviour/"@ + self.student_id@ + "?"@ + spec_behaviour_query(*options),
            ),
            r.content_type is None,
            r.body is None,
    {
        let mut parts: Vec<String> = Vec::new();
        match options {
            Some(o) => {
                match &o.to {
                    Some(d) => {
                        let f = d.format();
                        parts.push(form_encode_pair("to", f.as_str()));
                    },
                    None => {},
                }
                match &o.from {
                    Some(d) => {
                        let f = d.format();
                        parts.push(form_encode_pair("from", f.as_str()));
                    },
                    None => {},
                }
                proof {
                    assert(str_views(parts@) =~= spec_behaviour_parts(*o));
                }
            },
            None => {},
        }
        let query = join_parts(&parts);
        let mut path = String::from_str("/behaviour/");
        path.append(self.student_id.as_str());
        path.append("?");
        path.append(query.as_str());
        proof {
            if options is None {
                assert(str_views(parts@) =~= Seq::<Seq<char>>::empty());
            }
            assert(path@ =~= "/behaviour/"@ + self.student_id@ + "?"@ + spec_behaviour_query(
                *options,
            ));
        }
        self.build_get(path.as_str())
    }
}

} // verus!
