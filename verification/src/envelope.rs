//! The response envelope: every endpoint answers with a JSON object
//! `{success, data, meta}`.  A minimal status probe is decoded first;
//! only a body whose `success` field equals 1 is handed on for typed
//! decoding, anything else is classified as a failure.

use vstd::prelude::*;

use crate::error::ErrorResponse;
use crate::json::{
    field_opt_string, field_usize, json_of, parse_json, spec_field_opt_string, spec_field_usize,
    JsonValue,
};

verus! {

/// A successful envelope, split into its payload and its metadata.
#[derive(Debug, PartialEq)]
pub struct SuccessResponse<Data, Meta> {
    pub data: Data,
    pub meta: Meta,
}

/// The minimal shape decoded from every response body before anything
/// else: the upstream status and its optional error message.
#[derive(Debug, PartialEq, Eq)]
pub struct CCStatusResponse {
    pub error: Option<String>,
    pub success: usize,
}

/// The status probe of a parsed body: an object with a numeric
/// `success` field and an optional string `error` field.
pub open spec fn spec_decode_status_probe(v: JsonValue) -> Option<CCStatusResponse> {
    match v {
        JsonValue::Object(fields) => match (
            spec_field_usize(fields@, "success"@),
            spec_field_opt_string(fields@, "error"@),
        ) {
            (Some(success), Some(error)) => Some(CCStatusResponse { error, success }),
            _ => None,
        },
        _ => None,
    }
}

/// Decodes the status probe from a parsed body.
pub fn decode_status_probe(v: &JsonValue) -> (r: Option<CCStatusResponse>)
    ensures
        r == spec_decode_status_probe(*v),
{
    match v {
        JsonValue::Object(fields) => match (
            field_usize(fields, "success"),
            field_opt_string(fields, "error"),
        ) {
            (Some(success), Some(error)) => Some(CCStatusResponse { error, success }),
            _ => None,
        },
        _ => None,
    }
}

/// The classification of a response body.
///
/// - text that does not parse, or parses to something without the
///   probe shape, is a malformed envelope;
/// - `success == 1` passes the body through for typed decoding;
/// - any other status is an application failure, with the upstream
///   message when one is present.
pub open spec fn spec_classify(text: Seq<char>) -> Result<Seq<char>, ErrorResponse> {
    match json_of(text) {
        None => Err(ErrorResponse::SerdeJsonParsingError),
        Some(v) => match spec_decode_status_probe(v) {
            None => Err(ErrorResponse::SerdeJsonParsingError),
            Some(probe) => if probe.success == 1 {
                Ok(text)
            } else {
                match probe.error {
                    Some(message) => Err(
                        ErrorResponse::ClassChartsError(probe.success, message),
                    ),
                    None => Err(ErrorResponse::ClassChartsStatusError(probe.success)),
                }
            },
        },
    }
}

/// Classifies a raw response body: returns the body unchanged when
/// the envelope reports success, and the classified failure otherwise.
pub fn cc_parse(text: &str) -> (r: Result<String, ErrorResponse>)
    ensures
        match r {
            Ok(body) => spec_classify(text@) == Ok::<Seq<char>, ErrorResponse>(body@),
            Err(e) => spec_classify(text@) == Err::<Seq<char>, ErrorResponse>(e),
        },
{
    match parse_json(text) {
        None => Err(ErrorResponse::SerdeJsonParsingError),
        Some(doc) => match decode_status_probe(&doc) {
            None => Err(ErrorResponse::SerdeJsonParsingError),
            Some(probe) => if probe.success == 1 {
                Ok(text.to_owned())
            } else {
                match probe.error {
                    Some(message) => Err(
                        ErrorResponse::ClassChartsError(probe.success, message),
                    ),
                    None => Err(ErrorResponse::ClassChartsStatusError(probe.success)),
                }
            },
        },
    }
}

/// The classification is a three-way split.  A body whose envelope
/// cannot be probed is malformed; a probe with `success == 1` passes
/// the body through unchanged; any other status is an application
/// error, carrying the upstream message exactly when one is present
/// and the bare status code otherwise.
pub proof fn lemma_classify_cases(text: Seq<char>)
    ensures
        ({
            let r = spec_classify(text);
            match json_of(text) {
                None => r == Err::<Seq<char>, ErrorResponse>(ErrorResponse::SerdeJsonParsingError),
                Some(v) => match spec_decode_status_probe(v) {
                    None => r == Err::<Seq<char>, ErrorResponse>(
                        ErrorResponse::SerdeJsonParsingError,
                    ),
                    Some(probe) => if probe.success == 1 {
                        r == Ok::<Seq<char>, ErrorResponse>(text)
                    } else if probe.error is Some {
                        r == Err::<Seq<char>, ErrorResponse>(
                            ErrorResponse::ClassChartsError(probe.success, probe.error->0),
                        )
                    } else {
                        r == Err::<Seq<char>, ErrorResponse>(
                            ErrorResponse::ClassChartsStatusError(probe.success),
                        )
                    },
                },
            }
        }),
{
}

/// Classification is a function of the body text alone: two
/// classifications of the same text agree, so decoding the same
/// envelope twice yields structurally equal outcomes.
pub proof fn lemma_classify_deterministic(
    text: Seq<char>,
    r1: Result<Seq<char>, ErrorResponse>,
    r2: Result<Seq<char>, ErrorResponse>,
)
    requires
        r1 == spec_classify(text),
        r2 == spec_classify(text),
    ensures
        r1 == r2,
{
}

} // verus!
