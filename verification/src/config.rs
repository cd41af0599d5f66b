//! What the client is configured with: credentials and service addresses.

use crate::constants::{
    TRADIER_API_BASE_URL, TRADIER_STREAM_EVENTS_PATH, TRADIER_STREAM_HTTP_BASE_URL,
    TRADIER_WS_BASE_URL,
};
use crate::text::{decimal, decimal_text, join2, parse_u64, parsed_u64};
use vstd::prelude::*;

verus! {

/// What the client authenticates with.
#[derive(Debug, Clone)]
pub struct Credentials {
    pub client_id: String,
    pub client_secret: String,
    pub access_token: Option<String>,
    pub refresh_token: Option<String>,
}

/// Where the REST API is and how long a request may take, in seconds.
#[derive(Debug, Clone)]
pub struct RestApiConfig {
    pub base_url: String,
    pub timeout: u64,
}

/// Where the streaming API is and how long to wait before connecting
/// again, in seconds.
#[derive(Debug, Clone)]
pub struct StreamingConfig {
    pub http_base_url: String,
    pub ws_base_url: String,
    pub events_path: String,
    pub reconnect_interval: u64,
}

/// The whole configuration.
#[derive(Debug, Clone)]
pub struct Config {
    pub credentials: Credentials,
    pub rest_api: RestApiConfig,
    pub streaming: StreamingConfig,
}

impl Config {
    /// The address of the WebSocket event stream: the base URL followed by
    /// the events path.
    pub fn get_ws_url(&self) -> (url: String)
        ensures
            url@ == self.streaming.ws_base_url@ + self.streaming.events_path@,
    {
        join2(self.streaming.ws_base_url.as_str(), self.streaming.events_path.as_str())
    }

    /// The address of the HTTP event stream: the base URL followed by the
    /// events path.
    pub fn get_http_url(&self) -> (url: String)
        ensures
            url@ == self.streaming.http_base_url@ + self.streaming.events_path@,
    {
        join2(self.streaming.http_base_url.as_str(), self.streaming.events_path.as_str())
    }
}

/// How a token that may be missing is shown: a placeholder where there is
/// one, `null` where there is none. The token itself is never shown.
pub open spec fn redacted(token: Option<String>) -> Seq<char> {
    match token {
        Some(_) => "\"[REDACTED]\""@,
        None => "null"@,
    }
}

impl Credentials {
    /// The credentials as they are shown: every secret behind a placeholder.
    pub open spec fn shown(self) -> Seq<char> {
        "{\"client_id\":\"[REDACTED]\",\"client_secret\":\"[REDACTED]\",\"access_token\":"@
            + redacted(self.access_token) + ",\"refresh_token\":"@ + redacted(self.refresh_token)
            + "}"@
    }

    /// Shows the credentials without revealing any of them.
    pub fn to_string(&self) -> (text: String)
        ensures
            text@ == self.shown(),
    {
        let mut text =
            "{\"client_id\":\"[REDACTED]\",\"client_secret\":\"[REDACTED]\",\"access_token\":".to_owned();
        text.append(
            match &self.access_token {
                Some(_) => "\"[REDACTED]\"",
                None => "null",
            },
        );
        text.append(",\"refresh_token\":");
        text.append(
            match &self.refresh_token {
                Some(_) => "\"[REDACTED]\"",
                None => "null",
            },
        );
        text.append("}");
        text
    }
}

impl RestApiConfig {
    /// The settings as they are shown.
    pub open spec fn shown(self) -> Seq<char> {
        "{\"base_url\":\""@ + self.base_url@ + "\",\"timeout\":"@ + decimal(self.timeout as nat)
            + "}"@
    }

    /// Shows the settings.
    pub fn to_string(&self) -> (text: String)
        ensures
            text@ == self.shown(),
    {
        let mut text = "{\"base_url\":\"".to_owned();
        text.append(self.base_url.as_str());
        text.append("\",\"timeout\":");
        text.append(decimal_text(self.timeout).as_str());
        text.append("}");
        text
    }
}

impl StreamingConfig {
    /// The settings as they are shown.
    pub open spec fn shown(self) -> Seq<char> {
        "{\"http_base_url\":\""@ + self.http_base_url@ + "\",\"ws_base_url\":\""@
            + self.ws_base_url@ + "\",\"events_path\":\""@ + self.events_path@
            + "\",\"reconnect_interval\":"@ + decimal(self.reconnect_interval as nat) + "}"@
    }

    /// Shows the settings.
    pub fn to_string(&self) -> (text: String)
        ensures
            text@ == self.shown(),
    {
        let mut text = "{\"http_base_url\":\"".to_owned();
        text.append(self.http_base_url.as_str());
        text.append("\",\"ws_base_url\":\"");
        text.append(self.ws_base_url.as_str());
        text.append("\",\"events_path\":\"");
        text.append(self.events_path.as_str());
        text.append("\",\"reconnect_interval\":");
        text.append(decimal_text(self.reconnect_interval).as_str());
        text.append("}");
        text
    }
}

impl Config {
    /// The configuration as it is shown.
    pub open spec fn shown(self) -> Seq<char> {
        "{\"credentials\":"@ + self.credentials.shown() + ",\"rest_api\":"@
            + self.rest_api.shown() + ",\"streaming\":"@ + self.streaming.shown() + "}"@
    }

    /// Shows the configuration, the credentials behind placeholders.
    pub fn to_string(&self) -> (text: String)
        ensures
            text@ == self.shown(),
    {
        let mut text = "{\"credentials\":".to_owned();
        text.append(self.credentials.to_string().as_str());
        text.append(",\"rest_api\":");
        text.append(self.rest_api.to_string().as_str());
        text.append(",\"streaming\":");
        text.append(self.streaming.to_string().as_str());
        text.append("}");
        text
    }
}

/// What the environment holds for each setting: the value of the variable
/// that the field names, where it is set.
#[derive(Debug, Clone)]
pub struct Environment {
    /// `TRADIER_CLIENT_ID`
    pub client_id: Option<String>,
    /// `TRADIER_CLIENT_SECRET`
    pub client_secret: Option<String>,
    /// `TRADIER_ACCESS_TOKEN`
    pub access_token: Option<String>,
    /// `TRADIER_REFRESH_TOKEN`
    pub refresh_token: Option<String>,
    /// `TRADIER_REST_BASE_URL`
    pub rest_base_url: Option<String>,
    /// `TRADIER_REST_TIMEOUT`
    pub rest_timeout: Option<String>,
    /// `TRADIER_STREAM_HTTP_BASE_URL`
    pub stream_http_base_url: Option<String>,
    /// `TRADIER_WS_BASE_URL`
    pub ws_base_url: Option<String>,
    /// `TRADIER_STREAM_EVENTS_PATH`
    pub stream_events_path: Option<String>,
    /// `TRADIER_STREAM_RECONNECT_INTERVAL`
    pub stream_reconnect_interval: Option<String>,
}

impl Default for Environment {
    /// An environment in which no setting is set.
    fn default() -> (environment: Self)
        ensures
            environment.client_id is None,
            environment.client_secret is None,
            environment.access_token is None,
            environment.refresh_token is None,
            environment.rest_base_url is None,
            environment.rest_timeout is None,
            environment.stream_http_base_url is None,
            environment.ws_base_url is None,
            environment.stream_events_path is None,
            environment.stream_reconnect_interval is None,
    {
        Environment {
            client_id: None,
            client_secret: None,
            access_token: None,
            refresh_token: None,
            rest_base_url: None,
            rest_timeout: None,
            stream_http_base_url: None,
            ws_base_url: None,
            stream_events_path: None,
            stream_reconnect_interval: None,
        }
    }
}

/// The text of a setting: its value where it is set, the default otherwise.
pub open spec fn chosen_text(value: Option<String>, default: Seq<char>) -> Seq<char> {
    match value {
        Some(text) => text@,
        None => default,
    }
}

/// The number of a setting: what its value writes, where it is set and
/// writes a number; the default otherwise.
pub open spec fn chosen_number(value: Option<String>, default: u64) -> u64 {
    match value {
        Some(text) => match parsed_u64(text@) {
            Some(number) => number,
            None => default,
        },
        None => default,
    }
}

/// The text of a setting: its value where it is set, the default otherwise.
pub fn text_or_default(value: Option<String>, default: &str) -> (text: String)
    ensures
        text@ == chosen_text(value, default@),
{
    match value {
        Some(text) => text,
        None => default.to_owned(),
    }
}

/// The number of a setting. A value that writes no number counts as unset.
pub fn number_or_default(value: Option<String>, default: u64) -> (number: u64)
    ensures
        number == chosen_number(value, default),
{
    match value {
        Some(text) => match parse_u64(text.as_str()) {
            Some(number) => number,
            None => default,
        },
        None => default,
    }
}

impl Config {
    /// The configuration that an environment gives: each setting from its
    /// variable where that is set, from its default otherwise. The tokens
    /// have no default.
    pub fn from_environment(environment: Environment) -> (config: Config)
        ensures
            config.credentials.client_id@ == chosen_text(
                environment.client_id,
                "default_client_id"@,
            ),
            config.credentials.client_secret@ == chosen_text(
                environment.client_secret,
                "default_client_secret"@,
            ),
            config.credentials.access_token == environment.access_token,
            config.credentials.refresh_token == environment.refresh_token,
            config.rest_api.base_url@ == chosen_text(
                environment.rest_base_url,
                TRADIER_API_BASE_URL@,
            ),
            config.rest_api.timeout == chosen_number(environment.rest_timeout, 30),
            config.streaming.http_base_url@ == chosen_text(
                environment.stream_http_base_url,
                TRADIER_STREAM_HTTP_BASE_URL@,
            ),
            config.streaming.ws_base_url@ == chosen_text(
                environment.ws_base_url,
                TRADIER_WS_BASE_URL@,
            ),
            config.streaming.events_path@ == chosen_text(
                environment.stream_events_path,
                TRADIER_STREAM_EVENTS_PATH@,
            ),
            config.streaming.reconnect_interval == chosen_number(
                environment.stream_reconnect_interval,
                5,
            ),
    {
        Config {
            credentials: Credentials {
                client_id: text_or_default(environment.client_id, "default_client_id"),
                client_secret: text_or_default(environment.client_secret, "default_client_secret"),
                access_token: environment.access_token,
                refresh_token: environment.refresh_token,
            },
            rest_api: RestApiConfig {
                base_url: text_or_default(environment.rest_base_url, TRADIER_API_BASE_URL),
                timeout: number_or_default(environment.rest_timeout, 30),
            },
            streaming: StreamingConfig {
                http_base_url: text_or_default(
                    environment.stream_http_base_url,
                    TRADIER_STREAM_HTTP_BASE_URL,
                ),
                ws_base_url: text_or_default(environment.ws_base_url, TRADIER_WS_BASE_URL),
                events_path: text_or_default(
                    environment.stream_events_path,
                    TRADIER_STREAM_EVENTS_PATH,
                ),
                reconnect_interval: number_or_default(environment.stream_reconnect_interval, 5),
            },
        }
    }
}

} // verus!
