//! The market stream: trades, quotes and the like for the symbols that a
//! session subscribes to.

use crate::config::Config;
use crate::error::{viewed, Error};
use crate::wssession::payload::MarketSessionPayload;
use crate::wssession::session::{opening, Negotiation, Session, SessionType, SessionView};
use crate::wssession::session_manager::SessionManager;
use crate::wssession::stream::{started, StreamLoop};
use vstd::prelude::*;

verus! {

/// A session on the market stream.
#[derive(Debug)]
pub struct MarketSession(Session);

impl View for MarketSession {
    type V = SessionView;

    closed spec fn view(&self) -> SessionView {
        self.0@
    }
}

impl MarketSession {
    /// Begins a market session: [`Session::begin`] for the market stream.
    pub fn begin(manager: &mut SessionManager, config: &Config) -> (result: Result<
        Negotiation,
        Error,
    >)
        ensures
            viewed(result) == opening(old(manager).is_active(), SessionType::Market, *config),
            result is Ok ==> *final(manager) == old(manager).after_acquire(),
            result is Err ==> *final(manager) == *old(manager),
            final(manager).is_active() <==> (result is Ok || old(manager).is_active()),
    {
        Session::begin(manager, SessionType::Market, config)
    }

    /// Takes a session as a market session. A session of another kind is
    /// handed back as it is.
    pub fn from_session(session: Session) -> (result: Result<MarketSession, Session>)
        ensures
            match result {
                Ok(market) => session@.session_type == SessionType::Market && market@ == session@,
                Err(other) => session@.session_type != SessionType::Market && other == session,
            },
    {
        match session.kind() {
            SessionType::Market => Ok(MarketSession(session)),
            SessionType::Account => Err(session),
        }
    }

    /// The identifier that the service gave this session.
    pub fn get_session_id(&self) -> (session_id: &str)
        ensures
            session_id@ == self@.stream_info.session_id,
    {
        self.0.get_session_id()
    }

    /// The address of the stream.
    pub fn get_websocket_url(&self) -> (url: &str)
        ensures
            url@ == self@.stream_info.url,
    {
        self.0.get_websocket_url()
    }

    /// Prepares the stream loop for this session: the session's address,
    /// which must be an absolute URL, and the payload as the message to send
    /// first. Nothing is sent or read here.
    pub fn ws_stream(&self, payload: &MarketSessionPayload) -> (result: Result<StreamLoop, Error>)
        ensures
            viewed(result) == started(self@.stream_info.url, Some(payload.wire_text())),
    {
        match payload.get_message() {
            Ok(message) => StreamLoop::start(self.0.get_websocket_url(), Some(message)),
            Err(error) => Err(error),
        }
    }

    /// Ends the session: [`Session::release`].
    pub fn release(&mut self, manager: &mut SessionManager)
        ensures
            final(self)@ == (SessionView { released: true, ..old(self)@ }),
            !old(self)@.released ==> *final(manager) == old(manager).after_release(),
            !old(self)@.released ==> !final(manager).is_active(),
            old(self)@.released ==> *final(manager) == *old(manager),
    {
        self.0.release(manager)
    }
}

} // verus!
