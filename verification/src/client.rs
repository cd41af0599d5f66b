//! The requests of the REST API: which address each goes to and what it
//! carries. Sending them is left to the caller.

use crate::accounts::history::HistoryQuery;
use crate::accounts::types::AccountNumber;
use crate::address::{address_under, address_with_query, resolve, with_query};
use crate::config::Config;
use crate::error::{viewed, Error, ErrorView};
use crate::text::join2;
use vstd::prelude::*;

verus! {

/// A `GET` request of the REST API.
#[derive(Debug, Clone, PartialEq, Eq)]
pub struct RestRequest {
    /// The address.
    pub url: String,
    /// The token to authorize the request with, as a bearer credential.
    pub bearer_token: String,
    /// The value of the `accept` header.
    pub accept: String,
}

/// What a [`RestRequest`] holds, as sequences of characters.
pub struct RestRequestView {
    pub url: Seq<char>,
    pub bearer_token: Seq<char>,
    pub accept: Seq<char>,
}

impl View for RestRequest {
    type V = RestRequestView;

    open spec fn view(&self) -> RestRequestView {
        RestRequestView { url: self.url@, bearer_token: self.bearer_token@, accept: self.accept@ }
    }
}

/// The access token of a configuration, or `MissingAccessToken`.
pub open spec fn bearer_token(config: Config) -> Result<Seq<char>, ErrorView> {
    match config.credentials.access_token {
        Some(token) => Ok(token@),
        None => Err(ErrorView::MissingAccessToken),
    }
}

/// The request for an address, with the token of the configuration: asks
/// for JSON. Without a token there is no request.
pub open spec fn request_to(url: Seq<char>, config: Config) -> Result<RestRequestView, ErrorView> {
    match bearer_token(config) {
        Ok(token) => Ok(RestRequestView { url, bearer_token: token, accept: "application/json"@ }),
        Err(error) => Err(error),
    }
}

/// The request for a path under the base URL of the configuration. A base
/// URL or a path that gives no address is reported first.
pub open spec fn request_for(path: Seq<char>, config: Config) -> Result<
    RestRequestView,
    ErrorView,
> {
    match address_under(config.rest_api.base_url@, path) {
        Ok(url) => request_to(url, config),
        Err(error) => Err(error),
    }
}

/// The path of the user's profile.
pub open spec fn profile_path() -> Seq<char> {
    "/v1/user/profile"@
}

/// The path of a resource of an account.
pub open spec fn account_path(account: Seq<char>, resource: Seq<char>) -> Seq<char> {
    "/v1/accounts/"@ + account + resource
}

/// Plans the requests of the REST API for one configuration.
#[derive(Debug, Clone)]
pub struct TradierRestClient {
    http_client_config: Config,
}

impl TradierRestClient {
    /// The configuration that the requests are planned for.
    pub closed spec fn config(&self) -> Config {
        self.http_client_config
    }

    /// A client for the given configuration.
    pub fn new(config: Config) -> (client: Self)
        ensures
            client.config() == config,
    {
        TradierRestClient { http_client_config: config }
    }

    /// The address of a path under the base URL.
    pub fn get_request_url(&self, url_path: &str) -> (result: Result<String, Error>)
        ensures
            viewed(result) == address_under(self.config().rest_api.base_url@, url_path@),
    {
        resolve(self.http_client_config.rest_api.base_url.as_str(), url_path)
    }

    /// The access token, or `MissingAccessToken` where the configuration has
    /// none.
    pub fn get_bearer_token(&self) -> (result: Result<String, Error>)
        ensures
            viewed(result) == bearer_token(self.config()),
    {
        match &self.http_client_config.credentials.access_token {
            Some(token) => Ok(token.clone()),
            None => Err(Error::MissingAccessToken),
        }
    }

    /// The request for an address.
    pub fn request_to(&self, url: String) -> (result: Result<RestRequest, Error>)
        ensures
            viewed(result) == request_to(url@, self.config()),
    {
        match self.get_bearer_token() {
            Ok(bearer_token) => Ok(
                RestRequest { url, bearer_token, accept: "application/json".to_owned() },
            ),
            Err(error) => Err(error),
        }
    }

    /// The request for a path under the base URL.
    pub fn request_for(&self, url_path: &str) -> (result: Result<RestRequest, Error>)
        ensures
            viewed(result) == request_for(url_path@, self.config()),
    {
        match self.get_request_url(url_path) {
            Ok(url) => self.request_to(url),
            Err(error) => Err(error),
        }
    }

    /// The request for the user's profile.
    pub fn get_user_profile(&self) -> (result: Result<RestRequest, Error>)
        ensures
            viewed(result) == request_for(profile_path(), self.config()),
    {
        self.request_for("/v1/user/profile")
    }

    /// The request for the balances of an account.
    pub fn get_account_balances(&self, account_id: &AccountNumber) -> (result: Result<
        RestRequest,
        Error,
    >)
        ensures
            viewed(result) == request_for(account_path(account_id@, "/balances"@), self.config()),
    {
        let mut path = join2("/v1/accounts/", account_id.as_str());
        path.append("/balances");
        self.request_for(path.as_str())
    }

    /// The request for the positions of an account.
    pub fn get_account_positions(&self, account_id: &AccountNumber) -> (result: Result<
        RestRequest,
        Error,
    >)
        ensures
            viewed(result) == request_for(account_path(account_id@, "/positions"@), self.config()),
    {
        let mut path = join2("/v1/accounts/", account_id.as_str());
        path.append("/positions");
        self.request_for(path.as_str())
    }

    /// The address of the history of an account, with the query appended.
    pub fn account_history_url(&self, account_id: &AccountNumber, query: &HistoryQuery) -> (result:
        Result<String, Error>)
        ensures
            viewed(result) == history_address(account_id@, query.pairs(), self.config()),
    {
        let mut path = join2("/v1/accounts/", account_id.as_str());
        path.append("/history");
        match self.get_request_url(path.as_str()) {
            Ok(plain) => {
                let pairs = query.query_pairs();
                with_query(plain.as_str(), &pairs)
            },
            Err(error) => Err(error),
        }
    }

    /// The request for the history of an account. The address is settled
    /// first, the token after.
    pub fn get_account_history(&self, account_id: &AccountNumber, query: &HistoryQuery) -> (result:
        Result<RestRequest, Error>)
        ensures
            viewed(result) == history_request(account_id@, query.pairs(), self.config()),
    {
        match self.account_history_url(account_id, query) {
            Ok(url) => self.request_to(url),
            Err(error) => Err(error),
        }
    }
}

/// The address of the history of an account: the path of the history under
/// the base URL, with the pairs of the query appended.
pub open spec fn history_address(
    account: Seq<char>,
    pairs: Seq<(Seq<char>, Seq<char>)>,
    config: Config,
) -> Result<Seq<char>, ErrorView> {
    match address_under(config.rest_api.base_url@, account_path(account, "/history"@)) {
        Ok(plain) => address_with_query(plain, pairs),
        Err(error) => Err(error),
    }
}

/// The request for the history of an account.
pub open spec fn history_request(
    account: Seq<char>,
    pairs: Seq<(Seq<char>, Seq<char>)>,
    config: Config,
) -> Result<RestRequestView, ErrorView> {
    match history_address(account, pairs, config) {
        Ok(url) => request_to(url, config),
        Err(error) => Err(error),
    }
}

} // verus!
