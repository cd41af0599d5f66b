//! A streaming session: how it is negotiated, what it holds, when it ends.
//!
//! A session goes through four states. Before [`Session::begin`] there is
//! none. `begin` claims the guard's permit and prepares the request: the
//! session is being negotiated. The caller sends the request and hands the
//! reply to [`Negotiation::conclude_at`], which gives an active [`Session`] or
//! returns the permit and reports why not. [`Session::release`] ends the
//! session; a released session can still be read but never holds the permit
//! again.

use crate::clock::Timestamp;
use crate::config::Config;
use crate::constants::TRADIER_SESSION_TIMEOUT;
use crate::error::{viewed, Error, ErrorView};
use crate::json::{document_of, JsonTree, JsonValue};
use crate::text::join2;
use crate::wssession::session_manager::{
    lemma_guard_is_its_permit, lemma_guard_steps, Permit, SessionManager,
};
use vstd::prelude::*;

verus! {

/// What a session is opened for: market data or account events.
#[derive(Debug, Clone, Copy, PartialEq, Eq, Structural)]
pub enum SessionType {
    Market,
    Account,
}

impl SessionType {
    /// The path, under the REST base URL, at which a session of this kind is
    /// negotiated.
    pub open spec fn session_path(self) -> Seq<char> {
        match self {
            SessionType::Market => "/v1/markets/events/session"@,
            SessionType::Account => "/v1/accounts/events/session"@,
        }
    }

    /// The path, under the REST base URL, at which a session of this kind is
    /// negotiated.
    pub fn path(&self) -> (path: &'static str)
        ensures
            path@ == self.session_path(),
    {
        match self {
            SessionType::Market => "/v1/markets/events/session",
            SessionType::Account => "/v1/accounts/events/session",
        }
    }

    /// The name of the kind: `Market` or `Account`.
    pub open spec fn name_text(self) -> Seq<char> {
        match self {
            SessionType::Market => "Market"@,
            SessionType::Account => "Account"@,
        }
    }

    /// The name of the kind: `Market` or `Account`.
    pub fn name(&self) -> (name: &'static str)
        ensures
            name@ == self.name_text(),
    {
        match self {
            SessionType::Market => "Market",
            SessionType::Account => "Account",
        }
    }

    /// The name of the kind, as a text of its own.
    pub fn to_string(&self) -> (name: String)
        ensures
            name@ == self.name_text(),
    {
        self.name().to_owned()
    }
}

/// Where the stream is: the address to connect to and the identifier that
/// the service gave this session.
#[derive(Debug, Clone, PartialEq, Eq)]
pub struct StreamInfo {
    pub url: String,
    pub session_id: String,
}

/// What a [`StreamInfo`] holds, as sequences of characters.
pub struct StreamInfoView {
    pub url: Seq<char>,
    pub session_id: Seq<char>,
}

impl View for StreamInfo {
    type V = StreamInfoView;

    open spec fn view(&self) -> StreamInfoView {
        StreamInfoView { url: self.url@, session_id: self.session_id@ }
    }
}

/// The body of a successful negotiation.
#[derive(Debug, Clone, PartialEq, Eq)]
pub struct SessionResponse {
    pub stream: StreamInfo,
}

impl View for SessionResponse {
    type V = StreamInfoView;

    open spec fn view(&self) -> StreamInfoView {
        self.stream@
    }
}

/// The error for a document that does not describe a stream.
pub open spec fn malformed(reason: Seq<char>) -> ErrorView {
    ErrorView::JsonParsingError(reason)
}

/// The stream that a document describes, or what is wrong with the
/// document: the field that is missing or is no string, looked for in the
/// order `stream`, `url`, `sessionid`.
pub open spec fn stream_info_in(document: JsonTree) -> Result<StreamInfoView, ErrorView> {
    match document.member("stream"@) {
        None => Err(malformed("missing field `stream`"@)),
        Some(stream) => match stream.member("url"@) {
            None => Err(malformed("missing field `url`"@)),
            Some(url) => match url.text() {
                None => Err(malformed("field `url` is not a string"@)),
                Some(url_text) => match stream.member("sessionid"@) {
                    None => Err(malformed("missing field `sessionid`"@)),
                    Some(session_id) => match session_id.text() {
                        None => Err(malformed("field `sessionid` is not a string"@)),
                        Some(session_text) => Ok(
                            StreamInfoView { url: url_text, session_id: session_text },
                        ),
                    },
                },
            },
        },
    }
}

impl SessionResponse {
    /// Reads `{"stream": {"url": .., "sessionid": ..}}`. Both fields must be
    /// there and be strings; other members are passed over. Anything else is
    /// a `JsonParsingError` that names the field at fault.
    pub fn from_json(document: &JsonValue) -> (result: Result<SessionResponse, Error>)
        ensures
            viewed(result) == stream_info_in(document@),
    {
        let stream = match document.member("stream") {
            Some(stream) => stream,
            None => {
                return Err(Error::JsonParsingError("missing field `stream`".to_owned()));
            },
        };
        let url = match stream.member("url") {
            Some(url) => url,
            None => {
                return Err(Error::JsonParsingError("missing field `url`".to_owned()));
            },
        };
        let url = match url.as_text() {
            Some(url) => url,
            None => {
                return Err(Error::JsonParsingError("field `url` is not a string".to_owned()));
            },
        };
        let session_id = match stream.member("sessionid") {
            Some(session_id) => session_id,
            None => {
                return Err(Error::JsonParsingError("missing field `sessionid`".to_owned()));
            },
        };
        let session_id = match session_id.as_text() {
            Some(session_id) => session_id,
            None => {
                return Err(
                    Error::JsonParsingError("field `sessionid` is not a string".to_owned()),
                );
            },
        };
        Ok(
            SessionResponse {
                stream: StreamInfo { url: url.to_owned(), session_id: session_id.to_owned() },
            },
        )
    }

    /// Reads the body of a negotiation reply: JSON text, then the document
    /// as [`SessionResponse::from_json`] reads it. Text that is no JSON is a
    /// `JsonParsingError` with the parser's message.
    pub fn from_body(body: &str) -> (result: Result<SessionResponse, Error>)
        ensures
            viewed(result) == decoded_body(body@),
    {
        match JsonValue::parse(body) {
            Ok(document) => SessionResponse::from_json(&document),
            Err(error) => Err(error),
        }
    }
}

/// The stream that a reply body describes, or what is wrong with the body.
pub open spec fn decoded_body(body: Seq<char>) -> Result<StreamInfoView, ErrorView> {
    match document_of(body) {
        Ok(document) => stream_info_in(document),
        Err(error) => Err(error),
    }
}

/// Whether an HTTP status reports success: 200 to 299.
pub open spec fn is_success_status(status: u16) -> bool {
    200 <= status < 300
}

/// Whether an HTTP status reports success: 200 to 299.
pub fn status_is_success(status: u16) -> (success: bool)
    ensures
        success == is_success_status(status),
{
    200 <= status && status < 300
}

/// The request that negotiates a session: a `POST` with an empty body.
#[derive(Debug, Clone, PartialEq, Eq)]
pub struct HandshakeRequest {
    pub method: String,
    pub url: String,
    pub headers: Vec<(String, String)>,
    pub body: String,
}

/// What a [`HandshakeRequest`] holds, as sequences.
pub struct HandshakeRequestView {
    pub method: Seq<char>,
    pub url: Seq<char>,
    pub headers: Seq<(Seq<char>, Seq<char>)>,
    pub body: Seq<char>,
}

impl View for HandshakeRequest {
    type V = HandshakeRequestView;

    open spec fn view(&self) -> HandshakeRequestView {
        HandshakeRequestView {
            method: self.method@,
            url: self.url@,
            headers: Seq::new(
                self.headers@.len(),
                |i: int| (self.headers@[i].0@, self.headers@[i].1@),
            ),
            body: self.body@,
        }
    }
}

/// The request for a session of the given kind: the path of the kind under
/// the base URL, the token as a bearer credential, JSON asked for, and a
/// content length of zero stated outright, which the service insists on.
pub open spec fn handshake_request(
    session_type: SessionType,
    base_url: Seq<char>,
    access_token: Seq<char>,
) -> HandshakeRequestView {
    HandshakeRequestView {
        method: "POST"@,
        url: base_url + session_type.session_path(),
        headers: seq![
            ("Authorization"@, "Bearer "@ + access_token),
            ("Accept"@, "application/json"@),
            ("Content-Length"@, "0"@),
        ],
        body: Seq::empty(),
    }
}

impl HandshakeRequest {
    /// Builds the request for a session of the given kind.
    pub fn new(session_type: SessionType, base_url: &str, access_token: &str) -> (request: Self)
        ensures
            request@ == handshake_request(session_type, base_url@, access_token@),
    {
        let mut headers: Vec<(String, String)> = Vec::new();
        headers.push(("Authorization".to_owned(), join2("Bearer ", access_token)));
        headers.push(("Accept".to_owned(), "application/json".to_owned()));
        headers.push(("Content-Length".to_owned(), "0".to_owned()));
        let request = HandshakeRequest {
            method: "POST".to_owned(),
            url: join2(base_url, session_type.path()),
            headers,
            body: String::new(),
        };
        assert(request@.headers =~= handshake_request(
            session_type,
            base_url@,
            access_token@,
        ).headers);
        request
    }
}

/// What came back for a [`HandshakeRequest`].
#[derive(Debug, Clone, PartialEq, Eq)]
pub enum HandshakeReply {
    /// The service answered, with this status and body.
    Response { status: u16, body: String },
    /// No answer came: the transport failed, as described.
    Failure(String),
}

/// What a session holds, as the contracts see it.
pub struct SessionView {
    pub session_type: SessionType,
    pub stream_info: StreamInfoView,
    pub created_at: Timestamp,
    pub released: bool,
}

/// How a negotiation ends, given what came back and the time at which it
/// did. A reply with a success status and a body that describes a stream
/// gives an active session, and nothing else does: a transport failure is a
/// `NetworkError`, any other status a `CreateSessionError` with the status
/// and the body as they came, and a body that cannot be read a
/// `JsonParsingError`.
pub open spec fn conclusion(
    session_type: SessionType,
    reply: HandshakeReply,
    now: Timestamp,
) -> Result<SessionView, ErrorView> {
    match reply {
        HandshakeReply::Failure(message) => Err(ErrorView::NetworkError(message@)),
        HandshakeReply::Response { status, body } => if !is_success_status(status) {
            Err(ErrorView::CreateSessionError(session_type, status, body@))
        } else {
            match decoded_body(body@) {
                Err(error) => Err(error),
                Ok(stream_info) => Ok(
                    SessionView { session_type, stream_info, created_at: now, released: false },
                ),
            }
        },
    }
}

/// A session that is being negotiated: the guard's permit is claimed, the
/// request is ready, the reply is awaited.
#[derive(Debug)]
pub struct Negotiation {
    session_type: SessionType,
    request: HandshakeRequest,
    permit: Permit,
}

/// What a negotiation holds, as the contracts see it.
pub struct NegotiationView {
    pub session_type: SessionType,
    pub request: HandshakeRequestView,
}

impl View for Negotiation {
    type V = NegotiationView;

    closed spec fn view(&self) -> NegotiationView {
        NegotiationView { session_type: self.session_type, request: self.request@ }
    }
}

impl Negotiation {
    /// The kind of session that is negotiated.
    pub fn session_type(&self) -> (session_type: SessionType)
        ensures
            session_type == self@.session_type,
    {
        self.session_type
    }

    /// The request to send.
    pub fn request(&self) -> (request: &HandshakeRequest)
        ensures
            request@ == self@.request,
    {
        &self.request
    }

    /// Ends the negotiation with the reply, at the time `now`. On success the
    /// session is active and the guard stays as it is, held. On every failure
    /// the permit goes back to the guard before the error is returned.
    pub fn conclude_at(
        self,
        manager: &mut SessionManager,
        reply: HandshakeReply,
        now: Timestamp,
    ) -> (result: Result<Session, Error>)
        ensures
            viewed(result) == conclusion(self@.session_type, reply, now),
            result is Ok ==> *final(manager) == *old(manager),
            result is Err ==> *final(manager) == old(manager).after_release(),
            result is Err ==> !final(manager).is_active(),
    {
        match reply {
            HandshakeReply::Failure(message) => {
                manager.release_session(self.permit);
                Err(Error::NetworkError(message))
            },
            HandshakeReply::Response { status, body } => {
                if !status_is_success(status) {
                    manager.release_session(self.permit);
                    Err(Error::CreateSessionError(self.session_type, status, body))
                } else {
                    match SessionResponse::from_body(body.as_str()) {
                        Ok(response) => Ok(
                            Session {
                                session_type: self.session_type,
                                stream_info: response.stream,
                                created_at: now,
                                permit: Some(self.permit),
                            },
                        ),
                        Err(error) => {
                            manager.release_session(self.permit);
                            Err(error)
                        },
                    }
                }
            },
        }
    }

    /// Gives the negotiation up without a reply: the permit goes back to the
    /// guard.
    pub fn abandon(self, manager: &mut SessionManager)
        ensures
            *final(manager) == old(manager).after_release(),
            !final(manager).is_active(),
    {
        manager.release_session(self.permit);
    }
}

/// An active or released streaming session. An active session holds the
/// permit of its guard; a released one holds none.
#[derive(Debug)]
pub struct Session {
    pub session_type: SessionType,
    pub stream_info: StreamInfo,
    created_at: Timestamp,
    permit: Option<Permit>,
}

impl View for Session {
    type V = SessionView;

    closed spec fn view(&self) -> SessionView {
        SessionView {
            session_type: self.session_type,
            stream_info: self.stream_info@,
            created_at: self.created_at,
            released: self.permit is None,
        }
    }
}

/// How the first step of a negotiation ends. A guard that is held refuses
/// the session whatever else holds; on a free guard a configuration without
/// an access token is refused before anything is sent; otherwise the request
/// is ready.
pub open spec fn opening(
    guard_active: bool,
    session_type: SessionType,
    config: Config,
) -> Result<NegotiationView, ErrorView> {
    if guard_active {
        Err(ErrorView::SessionAlreadyExists)
    } else {
        match config.credentials.access_token {
            None => Err(ErrorView::MissingAccessToken),
            Some(token) => Ok(
                NegotiationView {
                    session_type,
                    request: handshake_request(session_type, config.rest_api.base_url@, token@),
                },
            ),
        }
    }
}

impl Session {
    /// The length of a session's life in seconds, after which it counts as
    /// expired.
    pub open spec fn lifetime_seconds() -> int {
        TRADIER_SESSION_TIMEOUT * 60
    }

    /// Whether the session counts as expired at `now`: more than the
    /// lifetime has passed since it was created. Expiry is advice: nothing in
    /// the library acts on it.
    pub open spec fn expired_at(self, now: Timestamp) -> bool {
        now.later_by_more_than(self@.created_at, Session::lifetime_seconds())
    }

    /// Begins a session: claims the permit of the guard and prepares the
    /// request that the caller is to send. The guard is held afterwards
    /// exactly when the request is handed out or the guard was held before;
    /// a refusal for want of a token leaves it free.
    pub fn begin(manager: &mut SessionManager, session_type: SessionType, config: &Config) -> (result:
        Result<Negotiation, Error>)
        ensures
            viewed(result) == opening(old(manager).is_active(), session_type, *config),
            result is Ok ==> *final(manager) == old(manager).after_acquire(),
            result is Err ==> *final(manager) == *old(manager),
            final(manager).is_active() <==> (result is Ok || old(manager).is_active()),
    {
        proof {
            lemma_guard_steps(*old(manager));
        }
        match manager.acquire_session() {
            Err(error) => Err(error),
            Ok(permit) => match &config.credentials.access_token {
                None => {
                    manager.release_session(permit);
                    proof {
                        lemma_guard_steps(*manager);
                        lemma_guard_is_its_permit(*manager, *old(manager));
                    }
                    Err(Error::MissingAccessToken)
                },
                Some(token) => Ok(
                    Negotiation {
                        session_type,
                        request: HandshakeRequest::new(
                            session_type,
                            config.rest_api.base_url.as_str(),
                            token.as_str(),
                        ),
                        permit,
                    },
                ),
            },
        }
    }

    /// The kind of the session.
    pub fn kind(&self) -> (session_type: SessionType)
        ensures
            session_type == self@.session_type,
    {
        self.session_type
    }

    /// The time at which the session became active.
    pub fn created_at(&self) -> (created_at: Timestamp)
        ensures
            created_at == self@.created_at,
    {
        self.created_at
    }

    /// Whether the session has given its permit back.
    pub fn is_released(&self) -> (released: bool)
        ensures
            released == self@.released,
    {
        self.permit.is_none()
    }

    /// Where the stream is. Stays readable after the session is released.
    pub fn endpoint(&self) -> (endpoint: &StreamInfo)
        ensures
            endpoint@ == self@.stream_info,
    {
        &self.stream_info
    }

    /// The address of the stream.
    pub fn get_websocket_url(&self) -> (url: &str)
        ensures
            url@ == self@.stream_info.url,
    {
        self.stream_info.url.as_str()
    }

    /// The identifier that the service gave this session.
    pub fn get_session_id(&self) -> (session_id: &str)
        ensures
            session_id@ == self@.stream_info.session_id,
    {
        self.stream_info.session_id.as_str()
    }

    /// Whether the session counts as expired at `now`.
    pub fn is_expired_at(&self, now: Timestamp) -> (expired: bool)
        ensures
            expired == self.expired_at(now),
    {
        now.is_later_by_more_than(&self.created_at, TRADIER_SESSION_TIMEOUT * 60)
    }

    /// Ends the session. The first call gives the permit back to the guard;
    /// a session that is already released leaves the guard alone, so the
    /// permit of a later session is never taken away. What the session
    /// holds stays as it is.
    pub fn release(&mut self, manager: &mut SessionManager)
        ensures
            final(self)@ == (SessionView { released: true, ..old(self)@ }),
            !old(self)@.released ==> *final(manager) == old(manager).after_release(),
            !old(self)@.released ==> !final(manager).is_active(),
            old(self)@.released ==> *final(manager) == *old(manager),
    {
        match self.permit.take() {
            Some(permit) => manager.release_session(permit),
            None => {},
        }
    }
}

/// No permit is lost to a negotiation that fails. On a free guard, a session
/// that is refused for want of a token leaves the guard free; once the permit
/// is claimed, every reply that gives no session sends the permit back, so
/// that the next claim is granted at once; and a reply that gives a session
/// leaves the guard held for as long as the session is active.
pub proof fn lemma_failed_negotiation_frees_the_guard(
    guard: SessionManager,
    session_type: SessionType,
    config: Config,
    reply: HandshakeReply,
    now: Timestamp,
)
    requires
        !guard.is_active(),
    ensures
        opening(guard.is_active(), session_type, config) is Err ==> guard.grants(),
        conclusion(session_type, reply, now) is Err ==> guard.after_acquire().after_release()
            .grants(),
        conclusion(session_type, reply, now) is Ok ==> !guard.after_acquire().grants(),
        conclusion(session_type, reply, now) is Ok <==> (reply matches HandshakeReply::Response {
            status,
            body,
        } && is_success_status(status) && decoded_body(body@) is Ok),
{
    lemma_guard_steps(guard);
    lemma_guard_steps(guard.after_acquire());
}

} // verus!
