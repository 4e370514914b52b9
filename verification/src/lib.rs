//! A typed client library for a school-management web service.
//!
//! The library covers the session lifecycle (login, freshness-driven
//! refresh), authenticated request construction, the response envelope
//! with its error taxonomy, and cursor-based pagination.  All network
//! traffic is left to the embedding application: the functions here
//! build requests as plain values and interpret response bodies.

pub mod api;
pub mod client;
pub mod codec;
pub mod date;
pub mod envelope;
pub mod error;
pub mod json;
pub mod session;
pub mod text;

pub use client::{
    find_cookie, fold_cookie_header, login_client, login_form_fields, login_session_id,
    parse_session_refresh, Client, Method, PreparedRequest, Session, SessionCookie, SessionMeta,
    SessionStep,
};
pub use date::Date;
pub use envelope::{cc_parse, CCStatusResponse, SuccessResponse};
pub use error::ClientCreationError as ClientError;
pub use error::{ClientCreationError, ErrorResponse};
pub use json::JsonValue;
pub use session::session_is_stale;
pub use text::u64_to_string;

use vstd::prelude::*;

verus! {

/// Seconds a session token stays fresh after a refresh.
pub const SESSION_FRESHNESS_SECONDS: i64 = 180;

} // verus!
