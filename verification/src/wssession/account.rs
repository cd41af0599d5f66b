//! The account stream: events of the account, such as orders and balances.
//! The service pushes them once the connection is open; nothing is
//! subscribed to.

use crate::config::Config;
use crate::error::{viewed, Error};
use crate::wssession::session::{opening, Negotiation, Session, SessionType, SessionView};
use crate::wssession::session_manager::SessionManager;
use crate::wssession::stream::{started, StreamLoop};
use vstd::prelude::*;

verus! {

/// A session on the account stream.
#[derive(Debug)]
pub struct AccountSession(Session);

impl View for AccountSession {
    type V = SessionView;

    closed spec fn view(&self) -> SessionView {
        self.0@
    }
}

impl AccountSession {
    /// Begins an account session: [`Session::begin`] for the account stream.
    pub fn begin(manager: &mut SessionManager, config: &Config) -> (result: Result<
        Negotiation,
        Error,
    >)
        ensures
            viewed(result) == opening(old(manager).is_active(), SessionType::Account, *config),
            result is Ok ==> *final(manager) == old(manager).after_acquire(),
            result is Err ==> *final(manager) == *old(manager),
            final(manager).is_active() <==> (result is Ok || old(manager).is_active()),
    {
        Session::begin(manager, SessionType::Account, config)
    }

    /// Takes a session as an account session. A session of another kind is
    /// handed back as it is.
    pub fn from_session(session: Session) -> (result: Result<AccountSession, Session>)
        ensures
            match result {
                Ok(account) => session@.session_type == SessionType::Account && account@
                    == session@,
                Err(other) => session@.session_type != SessionType::Account && other == session,
            },
    {
        match session.kind() {
            SessionType::Account => Ok(AccountSession(session)),
            SessionType::Market => Err(session),
        }
    }

    /// The identifier that the service gave this session.
    pub fn get_session_id(&self) -> (session_id: &str)
        ensures
            session_id@ == self@.stream_info.session_id,
    {
        self.0.get_session_id()
    }

    /// The address of the stream.
    pub fn get_websocket_url(&self) -> (url: &str)
        ensures
            url@ == self@.stream_info.url,
    {
        self.0.get_websocket_url()
    }

    /// Prepares the stream loop for this session: the session's address,
    /// which must be an absolute URL, and no message to send. The loop goes
    /// from connecting straight to reading.
    pub fn listen(&self) -> (result: Result<StreamLoop, Error>)
        ensures
            viewed(result) == started(self@.stream_info.url, None),
    {
        StreamLoop::start(self.0.get_websocket_url(), None)
    }

    /// Ends the session: [`Session::release`].
    pub fn release(&mut self, manager: &mut SessionManager)
        ensures
            final(self)@ == (SessionView { released: true, ..old(self)@ }),
            !old(self)@.released ==> *final(manager) == old(manager).after_release(),
            !old(self)@.released ==> !final(manager).is_active(),
            old(self)@.released ==> *final(manager) == *old(manager),
    {
        self.0.release(manager)
    }
}

} // verus!
