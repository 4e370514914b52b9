//! The client: credentials, session freshness, request construction
//! and the login bootstrap.
//!
//! The client never performs network traffic itself.  It hands the
//! embedding application fully prepared requests as plain values and
//! interprets the bodies that come back; the application owns the
//! sockets and the clock.  Before any authenticated request the
//! application asks [`Client::begin_request`] whether the session
//! must be refreshed first; after a refresh round trip it feeds the
//! outcome back through [`Client::apply_refresh`].

use vstd::prelude::*;

use crate::api::student::{
    spec_decode_student_info_data, decode_student_info_data, StudentInfoData,
};
use crate::codec::{
    form_encode_pair, form_pair_encoded, percent_decode, percent_decoded, to_uppercase, uppercased,
};
use crate::envelope::{cc_parse, spec_classify, SuccessResponse};
use crate::error::{ClientCreationError, ErrorResponse};
use crate::json::{
    field_string, get_field, json_of, obj_get, parse_json, spec_field_string, str_eq, JsonValue,
};
use crate::session::{session_is_stale, spec_session_is_stale};
use crate::text::{chars_to_string, dec_rep, str_to_chars, u64_to_string};

verus! {

/// The request methods the service is spoken to with.
#[derive(Debug, Clone, Copy, PartialEq, Eq, Structural)]
pub enum Method {
    Get,
    Post,
}

/// An authenticated request, ready to be sent: everything the wire
/// layer needs, as plain values.
#[derive(Debug, PartialEq, Eq)]
pub struct PreparedRequest {
    pub method: Method,
    pub url: String,
    pub cookie: String,
    pub authorization: String,
    pub content_type: Option<String>,
    pub body: Option<String>,
}

/// What must happen before an authenticated request goes out.
#[derive(Debug)]
pub enum SessionStep {
    /// The session is stale: perform this refresh round trip first.
    Refresh(PreparedRequest),
    /// The session is fresh: send the request straight away.
    Ready,
}

/// The one stateful entity: credentials and session freshness.
#[derive(Debug, PartialEq, Eq)]
pub struct Client {
    /// The current session token, replaced by each refresh.
    pub session_id: String,
    /// Set once by the identity fetch after login, never changed.
    pub student_id: String,
    /// Where the service lives; immutable.
    pub base_url: String,
    /// The cookie header captured at login; immutable.
    pub auth_cookies: String,
    /// When the session token was last refreshed, in seconds.
    pub last_session_id_updated: i64,
}

/// The absolute URL of an endpoint: the base, the fixed namespace
/// segment, then the endpoint's own path.
pub open spec fn spec_api_url(base: Seq<char>, path: Seq<char>) -> Seq<char> {
    base + "/apiv2student"@ + path
}

/// A request addressed under the namespace and carrying the client's
/// cookie header and `Basic` session authorization.
pub open spec fn spec_authed_request(
    r: PreparedRequest,
    c: Client,
    m: Method,
    path: Seq<char>,
) -> bool {
    &&& r.method == m
    &&& r.url@ == spec_api_url(c.base_url@, path)
    &&& r.cookie == c.auth_cookies
    &&& r.authorization@ == "Basic "@ + c.session_id@
}

/// The session-refresh round trip: a ping with `include_data=true`
/// as a form-encoded body.
pub open spec fn spec_ping_request(r: PreparedRequest, c: Client) -> bool {
    &&& spec_authed_request(r, c, Method::Post, "/ping"@)
    &&& match r.content_type {
        Some(ct) => ct@ == "application/x-www-form-urlencoded"@,
        None => false,
    }
    &&& match r.body {
        Some(b) => b@ == form_pair_encoded("include_data"@, "true"@),
        None => false,
    }
}

impl Client {
    /// Whether the session is stale at `now` and the next request
    /// must refresh it first.
    pub open spec fn spec_needs_refresh(&self, now: int) -> bool {
        spec_session_is_stale(now, self.last_session_id_updated as int)
    }

    /// Builds a client directly from its parts, for session
    /// restoration and testing; `now` marks the token as refreshed.
    pub fn manual_creation(
        student_id: String,
        base_url: String,
        auth_cookies: String,
        session_id: String,
        now: i64,
    ) -> (c: Client)
        ensures
            c == (Client {
                session_id,
                student_id,
                base_url,
                auth_cookies,
                last_session_id_updated: now,
            }),
    {
        Client { session_id, student_id, base_url, auth_cookies, last_session_id_updated: now }
    }

    /// Whether the next request must refresh the session first.
    pub fn needs_refresh(&self, now: i64) -> (stale: bool)
        ensures
            stale == self.spec_needs_refresh(now as int),
    {
        session_is_stale(now, self.last_session_id_updated)
    }

    /// The absolute URL for an endpoint path.
    fn api_url(&self, path: &str) -> (u: String)
        ensures
            u@ == spec_api_url(self.base_url@, path@),
    {
        let mut u = self.base_url.clone();
        u.append("/apiv2student");
        u.append(path);
        u
    }

    /// The `Basic` authorization header for the current session.
    fn authorization_header(&self) -> (h: String)
        ensures
            h@ == "Basic "@ + self.session_id@,
    {
        let mut h = String::from_str("Basic ");
        h.append(self.session_id.as_str());
        h
    }

    /// Prepares an authenticated GET request for a path under the
    /// namespace.  The session's freshness is the caller's duty:
    /// consult [`Client::begin_request`] first.
    pub fn build_get(&self, path: &str) -> (r: PreparedRequest)
        ensures
            spec_authed_request(r, *self, Method::Get, path@),
            r.content_type is None,
            r.body is None,
    {
        PreparedRequest {
            method: Method::Get,
            url: self.api_url(path),
            cookie: self.auth_cookies.clone(),
            authorization: self.authorization_header(),
            content_type: None,
            body: None,
        }
    }

    /// Prepares an authenticated POST request for a path under the
    /// namespace, body and content type left to the caller.
    pub fn build_post(&self, path: &str) -> (r: PreparedRequest)
        ensures
            spec_authed_request(r, *self, Method::Post, path@),
            r.content_type is None,
            r.body is None,
    {
        PreparedRequest {
            method: Method::Post,
            url: self.api_url(path),
            cookie: self.auth_cookies.clone(),
            authorization: self.authorization_header(),
            content_type: None,
            body: None,
        }
    }

    /// The session-refresh request.
    pub fn ping_request(&self) -> (r: PreparedRequest)
        ensures
            spec_ping_request(r, *self),
    {
        PreparedRequest {
            method: Method::Post,
            url: self.api_url("/ping"),
            cookie: self.auth_cookies.clone(),
            authorization: self.authorization_header(),
            content_type: Some(String::from_str("application/x-www-form-urlencoded")),
            body: Some(form_encode_pair("include_data", "true")),
        }
    }

    /// Decides what must precede the next authenticated request: a
    /// refresh round trip exactly when the session is stale at `now`.
    pub fn begin_request(&self, now: i64) -> (step: SessionStep)
        ensures
            match step {
                SessionStep::Refresh(ping) => self.spec_needs_refresh(now as int)
                    && spec_ping_request(ping, *self),
                SessionStep::Ready => !self.spec_needs_refresh(now as int),
            },
    {
        if self.needs_refresh(now) {
            SessionStep::Refresh(self.ping_request())
        } else {
            SessionStep::Ready
        }
    }

    /// Installs a refreshed session token, atomically with its
    /// refresh time; nothing else changes.
    pub fn apply_refresh(&mut self, session_id: String, now: i64)
        ensures
            *final(self) == (Client { session_id, last_session_id_updated: now, ..*old(self) }),
    {
        self.session_id = session_id;
        self.last_session_id_updated = now;
    }

    /// Records the student identity fetched right after login: the
    /// student id is the decimal rendering of the user id.
    pub fn complete_login(&mut self, info: &StudentInfoData)
        ensures
            final(self).student_id@ == dec_rep(info.user.id as nat),
            final(self).session_id == old(self).session_id,
            final(self).base_url == old(self).base_url,
            final(self).auth_cookies == old(self).auth_cookies,
            final(self).last_session_id_updated == old(self).last_session_id_updated,
    {
        self.student_id = u64_to_string(info.user.id as u64);
    }
}

/// A session is fresh at the moment it was refreshed: after a
/// refresh at `now`, no second refresh is needed for a request at
/// `now`, so a stale session costs exactly one refresh round trip.
pub proof fn lemma_one_refresh_suffices(c: Client, session_id: String, now: i64)
    ensures
        !(Client { session_id, last_session_id_updated: now, ..c }).spec_needs_refresh(now as int),
{
}

/// The payload of the session cookie captured at login.
#[derive(Debug, PartialEq, Eq)]
pub struct SessionCookie {
    pub session_id: String,
}

/// Session metadata: the refreshed token under `session_id`.
#[derive(Debug, PartialEq, Eq)]
pub struct SessionMeta {
    pub session_id: String,
}

/// What the refresh round trip answers with.
pub type Session = SuccessResponse<StudentInfoData, SessionMeta>;

/// A session cookie: an object whose `session_id` field is a string.
pub open spec fn spec_decode_session_cookie(v: JsonValue) -> Option<SessionCookie> {
    match v {
        JsonValue::Object(f) => match spec_field_string(f@, "session_id"@) {
            Some(session_id) => Some(SessionCookie { session_id }),
            None => None,
        },
        _ => None,
    }
}

/// Decodes the session cookie's JSON payload.
pub fn decode_session_cookie(v: &JsonValue) -> (r: Option<SessionCookie>)
    ensures
        r == spec_decode_session_cookie(*v),
{
    match v {
        JsonValue::Object(f) => match field_string(f, "session_id") {
            Some(session_id) => Some(SessionCookie { session_id }),
            None => None,
        },
        _ => None,
    }
}

/// Session metadata: an object whose `session_id` field is a string.
pub open spec fn spec_decode_session_meta(v: JsonValue) -> Option<SessionMeta> {
    match v {
        JsonValue::Object(f) => match spec_field_string(f@, "session_id"@) {
            Some(session_id) => Some(SessionMeta { session_id }),
            None => None,
        },
        _ => None,
    }
}

/// Decodes session metadata.
pub fn decode_session_meta(v: &JsonValue) -> (r: Option<SessionMeta>)
    ensures
        r == spec_decode_session_meta(*v),
{
    match v {
        JsonValue::Object(f) => match field_string(f, "session_id") {
            Some(session_id) => Some(SessionMeta { session_id }),
            None => None,
        },
        _ => None,
    }
}

/// The interpretation of a refresh response body: the classified
/// envelope, then the identity payload and the session metadata.
pub open spec fn spec_parse_session_refresh(text: Seq<char>) -> Result<Session, ErrorResponse> {
    match spec_classify(text) {
        Err(e) => Err(e),
        Ok(body) => match json_of(body) {
            Some(JsonValue::Object(fields)) => match (
                obj_get(fields@, "data"@),
                obj_get(fields@, "meta"@),
            ) {
                (Some(dv), Some(mv)) => match (
                    spec_decode_student_info_data(dv),
                    spec_decode_session_meta(mv),
                ) {
                    (Some(data), Some(meta)) => Ok(SuccessResponse { data, meta }),
                    _ => Err(ErrorResponse::SerdeJsonParsingError),
                },
                _ => Err(ErrorResponse::SerdeJsonParsingError),
            },
            _ => Err(ErrorResponse::SerdeJsonParsingError),
        },
    }
}

/// Interprets the body of a refresh (ping) response.  The new token
/// is `r.meta.session_id`; hand it to [`Client::apply_refresh`].
pub fn parse_session_refresh(text: &str) -> (r: Result<Session, ErrorResponse>)
    ensures
        r == spec_parse_session_refresh(text@),
{
    let body = match cc_parse(text) {
        Ok(b) => b,
        Err(e) => { return Err(e) },
    };
    match parse_json(body.as_str()) {
        Some(JsonValue::Object(fields)) => {
            let dv = match get_field(&fields, "data") {
                Some(x) => x,
                None => { return Err(ErrorResponse::SerdeJsonParsingError) },
            };
            let mv = match get_field(&fields, "meta") {
                Some(x) => x,
                None => { return Err(ErrorResponse::SerdeJsonParsingError) },
            };
            match (decode_student_info_data(dv), decode_session_meta(mv)) {
                (Some(data), Some(meta)) => Ok(SuccessResponse { data, meta }),
                _ => Err(ErrorResponse::SerdeJsonParsingError),
            }
        },
        _ => Err(ErrorResponse::SerdeJsonParsingError),
    }
}

/// The form submitted to the login endpoint: method override,
/// uppercased access code, date of birth, remember flag and a
/// placeholder captcha token, in that order.
pub fn login_form_fields(code: &str, dob: &str) -> (fields: Vec<(String, String)>)
    ensures
        fields@.len() == 5,
        fields@[0].0@ == "_method"@ && fields@[0].1@ == "POST"@,
        fields@[1].0@ == "code"@ && fields@[1].1@ == uppercased(code@),
        fields@[2].0@ == "dob"@ && fields@[2].1@ == dob@,
        fields@[3].0@ == "remember_me"@ && fields@[3].1@ == "1"@,
        fields@[4].0@ == "recaptcha-token"@ && fields@[4].1@ == "no-token-available"@,
{
    let mut fields: Vec<(String, String)> = Vec::new();
    fields.push((String::from_str("_method"), String::from_str("POST")));
    fields.push((String::from_str("code"), to_uppercase(code)));
    fields.push((String::from_str("dob"), String::from_str(dob)));
    fields.push((String::from_str("remember_me"), String::from_str("1")));
    fields.push((String::from_str("recaptcha-token"), String::from_str("no-token-available")));
    fields
}

/// The value of the first cookie with the given name.
pub open spec fn spec_find_cookie(cookies: Seq<(String, String)>, name: Seq<char>) -> Option<
    String,
>
    decreases cookies.len(),
{
    if cookies.len() == 0 {
        None
    } else if cookies[0].0@ == name {
        Some(cookies[0].1)
    } else {
        spec_find_cookie(cookies.skip(1), name)
    }
}

/// Looks a cookie up by name among the cookies a response set.
pub fn find_cookie(cookies: &Vec<(String, String)>, name: &str) -> (r: Option<String>)
    ensures
        r == spec_find_cookie(cookies@, name@),
{
    let mut i: usize = 0;
    proof {
        assert(cookies@.skip(0) =~= cookies@);
    }
    while i < cookies.len()
        invariant
            i <= cookies@.len(),
            spec_find_cookie(cookies@, name@) == spec_find_cookie(cookies@.skip(i as int), name@),
        decreases cookies@.len() - i,
    {
        proof {
            assert(cookies@.skip(i as int)[0] == cookies@[i as int]);
            assert(cookies@.skip(i as int).skip(1) =~= cookies@.skip(i + 1));
        }
        if str_eq(cookies[i].0.as_str(), name) {
            return Some(cookies[i].1.clone());
        }
        i = i + 1;
    }
    None
}

/// A set-cookie header folded into a single cookie header: the
/// comma that separates the values becomes a semicolon.
pub open spec fn spec_fold_cookies(s: Seq<char>) -> Seq<char> {
    s.map_values(|c: char| if c == ',' { ';' } else { c })
}

/// Folds a set-cookie header value into a reusable cookie header.
pub fn fold_cookie_header(s: &str) -> (r: String)
    ensures
        r@ == spec_fold_cookies(s@),
{
    let chars = str_to_chars(s);
    let mut out: Vec<char> = Vec::new();
    let mut i: usize = 0;
    while i < chars.len()
        invariant
            chars@ == s@,
            i <= chars@.len(),
            out@.len() == i,
            forall|j: int|
                0 <= j < i ==> out@[j] == (if s@[j] == ',' {
                    ';'
                } else {
                    s@[j]
                }),
        decreases chars@.len() - i,
    {
        let c = chars[i];
        if c == ',' {
            out.push(';');
        } else {
            out.push(c);
        }
        i = i + 1;
    }
    proof {
        assert(out@ =~= spec_fold_cookies(s@));
    }
    chars_to_string(&out)
}

/// The session token hidden in the named cookie: percent-decode the
/// value, parse it as JSON, read its `session_id` field.
pub open spec fn spec_login_session_id(cookie_value: Seq<char>) -> Result<
    String,
    ClientCreationError,
> {
    match percent_decoded(cookie_value) {
        None => Err(ClientCreationError::StringDecodingError),
        Some(decoded) => match json_of(decoded) {
            None => Err(ClientCreationError::CookieParsingError),
            Some(v) => match spec_decode_session_cookie(v) {
                None => Err(ClientCreationError::CookieParsingError),
                Some(sc) => Ok(sc.session_id),
            },
        },
    }
}

/// Extracts the session token from the named cookie's value.
pub fn login_session_id(cookie_value: &str) -> (r: Result<String, ClientCreationError>)
    ensures
        r == spec_login_session_id(cookie_value@),
{
    let decoded = match percent_decode(cookie_value) {
        Some(d) => d,
        None => { return Err(ClientCreationError::StringDecodingError) },
    };
    match parse_json(decoded.as_str()) {
        None => Err(ClientCreationError::CookieParsingError),
        Some(v) => match decode_session_cookie(&v) {
            None => Err(ClientCreationError::CookieParsingError),
            Some(sc) => Ok(sc.session_id),
        },
    }
}

/// The name of the cookie that carries the session credentials.
pub open spec fn spec_session_cookie_name() -> Seq<char> {
    "student_session_credentials"@
}

/// Interprets a login response.
///
/// Anything but a redirect with a set-cookie header is an
/// authentication failure, and nothing further — in particular no
/// identity fetch — may follow it.  Otherwise the named session
/// cookie is located and decoded, and the client starts with an
/// empty student id, to be filled by the identity fetch.
pub fn login_client(
    status: u16,
    set_cookie: Option<String>,
    cookies: &Vec<(String, String)>,
    base_url: String,
    now: i64,
) -> (r: Result<Client, ClientCreationError>)
    ensures
        match r {
            Ok(c) => {
                &&& status == 302
                &&& set_cookie is Some
                &&& match spec_find_cookie(cookies@, spec_session_cookie_name()) {
                    Some(value) => spec_login_session_id(value@) == Ok::<
                        String,
                        ClientCreationError,
                    >(c.session_id),
                    None => false,
                }
                &&& c.student_id@ == Seq::<char>::empty()
                &&& c.base_url == base_url
                &&& c.auth_cookies@ == spec_fold_cookies(set_cookie->0@)
                &&& c.last_session_id_updated == now
            },
            Err(e) => {
                if status != 302 || set_cookie is None {
                    e == ClientCreationError::AuthenticationError
                } else {
                    match spec_find_cookie(cookies@, spec_session_cookie_name()) {
                        None => e == ClientCreationError::MissingSesssionCookie(()),
                        Some(value) => spec_login_session_id(value@) == Err::<
                            String,
                            ClientCreationError,
                        >(e),
                    }
                }
            },
        },
{
    let header = match set_cookie {
        Some(h) => h,
        None => { return Err(ClientCreationError::AuthenticationError) },
    };
    if status != 302 {
        return Err(ClientCreationError::AuthenticationError);
    }
    let cookie_value = match find_cookie(cookies, "student_session_credentials") {
        Some(v) => v,
        None => { return Err(ClientCreationError::MissingSesssionCookie(())) },
    };
    let session_id = match login_session_id(cookie_value.as_str()) {
        Ok(s) => s,
        Err(e) => { return Err(e) },
    };
    let auth_cookies = fold_cookie_header(header.as_str());
    Ok(
        Client {
            session_id,
            student_id: String::new(),
            base_url,
            auth_cookies,
            last_session_id_updated: now,
        },
    )
}

} // verus!
