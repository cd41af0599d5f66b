//! The failures that the library reports.

use crate::text::{decimal, decimal_text, join2};
use crate::wssession::session::SessionType;
use vstd::prelude::*;

verus! {

/// Every failure carries what the caller needs to decide what to do next:
/// the status and body of a refused negotiation, the token that was not
/// understood, the text of a transport failure.
#[derive(Debug, Clone, PartialEq, Eq)]
pub enum Error {
    /// A stream or service address is no absolute URL.
    UrlParsingError(String),
    /// The service answered the negotiation with a status outside 200..=299.
    CreateSessionError(SessionType, u16, String),
    /// A filter token that names no market filter.
    UnsupportedMarketFilter(String),
    /// A negotiation reply with a success status whose body is not the
    /// expected JSON document.
    JsonParsingError(String),
    /// The configuration holds no access token.
    MissingAccessToken,
    /// The guard is already held by a live session.
    SessionAlreadyExists,
    /// The request never produced a reply.
    NetworkError(String),
    /// The stream connection failed.
    WebSocketError(String),
    /// An account number that is blank or holds no printable character.
    AccountIdParseError(String),
    /// Anything else, with a description.
    UnexpectedError(String),
}

/// What an [`Error`] holds, with each text as the sequence of its characters.
/// Contracts speak of errors through this view.
pub enum ErrorView {
    UrlParsingError(Seq<char>),
    CreateSessionError(SessionType, u16, Seq<char>),
    UnsupportedMarketFilter(Seq<char>),
    JsonParsingError(Seq<char>),
    MissingAccessToken,
    SessionAlreadyExists,
    NetworkError(Seq<char>),
    WebSocketError(Seq<char>),
    AccountIdParseError(Seq<char>),
    UnexpectedError(Seq<char>),
}

impl View for Error {
    type V = ErrorView;

    open spec fn view(&self) -> ErrorView {
        match self {
            Error::UrlParsingError(text) => ErrorView::UrlParsingError(text@),
            Error::CreateSessionError(kind, status, body) => ErrorView::CreateSessionError(
                *kind,
                *status,
                body@,
            ),
            Error::UnsupportedMarketFilter(token) => ErrorView::UnsupportedMarketFilter(token@),
            Error::JsonParsingError(text) => ErrorView::JsonParsingError(text@),
            Error::MissingAccessToken => ErrorView::MissingAccessToken,
            Error::SessionAlreadyExists => ErrorView::SessionAlreadyExists,
            Error::NetworkError(text) => ErrorView::NetworkError(text@),
            Error::WebSocketError(text) => ErrorView::WebSocketError(text@),
            Error::AccountIdParseError(text) => ErrorView::AccountIdParseError(text@),
            Error::UnexpectedError(text) => ErrorView::UnexpectedError(text@),
        }
    }
}

impl ErrorView {
    /// The error in words. What the error carries is part of the message.
    pub open spec fn message(self) -> Seq<char> {
        match self {
            ErrorView::UrlParsingError(text) => "URL Parsing Error: "@ + text,
            ErrorView::CreateSessionError(kind, status, body) => "Failed to create "@
                + kind.name_text() + " session. Status: "@ + decimal(status as nat) + ". Body: "@
                + body,
            ErrorView::UnsupportedMarketFilter(token) => "Unsupported MarketSessionFilter: "@
                + token,
            ErrorView::JsonParsingError(text) => "Unable to parse Session Response: "@ + text,
            ErrorView::MissingAccessToken => "Missing Access Token"@,
            ErrorView::SessionAlreadyExists => "Session already exists"@,
            ErrorView::NetworkError(text) => "Network error during API request: "@ + text,
            ErrorView::WebSocketError(text) => "WebSocket error: "@ + text,
            ErrorView::AccountIdParseError(text) => "Invalid account number: "@ + text,
            ErrorView::UnexpectedError(text) => "Unexpected error: "@ + text,
        }
    }
}

impl Error {
    /// The error in words.
    pub fn to_string(&self) -> (message: String)
        ensures
            message@ == self@.message(),
    {
        match self {
            Error::UrlParsingError(text) => join2("URL Parsing Error: ", text.as_str()),
            Error::CreateSessionError(kind, status, body) => {
                let mut message = join2("Failed to create ", kind.name());
                message.append(" session. Status: ");
                message.append(decimal_text(*status as u64).as_str());
                message.append(". Body: ");
                message.append(body.as_str());
                message
            },
            Error::UnsupportedMarketFilter(token) => join2(
                "Unsupported MarketSessionFilter: ",
                token.as_str(),
            ),
            Error::JsonParsingError(text) => join2(
                "Unable to parse Session Response: ",
                text.as_str(),
            ),
            Error::MissingAccessToken => "Missing Access Token".to_owned(),
            Error::SessionAlreadyExists => "Session already exists".to_owned(),
            Error::NetworkError(text) => join2("Network error during API request: ", text.as_str()),
            Error::WebSocketError(text) => join2("WebSocket error: ", text.as_str()),
            Error::AccountIdParseError(text) => join2("Invalid account number: ", text.as_str()),
            Error::UnexpectedError(text) => join2("Unexpected error: ", text.as_str()),
        }
    }
}

/// A result as the contracts see it: the view of what it holds, on either
/// side.
pub open spec fn viewed<T: View>(result: core::result::Result<T, Error>) -> core::result::Result<
    T::V,
    ErrorView,
> {
    match result {
        Ok(value) => Ok(value@),
        Err(error) => Err(error@),
    }
}

/// The result type of the library.
pub type Result<T> = core::result::Result<T, Error>;

} // verus!
