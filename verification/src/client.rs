//! The two-state connection object: disconnected or connected.
//!
//! A client holds a non-empty credential in either state; only a connected
//! client can issue requests. Connecting probes the status endpoint and
//! falls back to a disconnected client on any failure.
use vstd::prelude::*;
use vstd::string::StringExecFns;

use crate::csv::{csv_shape_ok, decode_csv, decodes_to};
use crate::error::ApiError;
use crate::http::{base64_encode, base64_of, build_transport, http_get_text};
use crate::params::Params;
use crate::query::{pair_views, pairs_for, query_pairs};
use crate::strutil::str_eq;
use crate::table::Table;

verus! {

/// A market-data client: a credential, and in the connected state a live
/// authenticated transport session.
#[derive(Debug, Clone)]
pub enum Client {
    /// Holds the credential only; cannot issue requests.
    Offline { api_key: String },
    /// Holds the credential and an authenticated transport session.
    Online { api_key: String, req_client: crate::http::Transport },
}

impl Client {
    /// The credential, whichever state the client is in.
    pub open spec fn spec_api_key(self) -> Seq<char> {
        match self {
            Client::Offline { api_key } => api_key@,
            Client::Online { api_key, .. } => api_key@,
        }
    }

    /// The credential held by this client.
    pub fn api_key(&self) -> (r: &String)
        ensures
            r@ == self.spec_api_key(),
    {
        match self {
            Client::Offline { api_key } => api_key,
            Client::Online { api_key, .. } => api_key,
        }
    }

    /// Relies on `std::time::SystemTime::now`, `duration_since` and
    /// `Duration::as_millis` from std: milliseconds since the Unix epoch,
    /// read from the system clock, or zero when the clock reads before the
    /// epoch. The outcome depends on the clock, so nothing is promised.
    #[verifier::external_body]
    pub fn timestamp_ms(&self) -> u128 {
        match std::time::SystemTime::now().duration_since(std::time::SystemTime::UNIX_EPOCH) {
            Ok(d) => d.as_millis(),
            Err(_) => 0,
        }
    }

    /// Builds a disconnected client; an empty credential is rejected.
    pub fn new(api_key: String) -> (r: Result<Client, ApiError>)
        ensures
            api_key@.len() == 0 ==> r == Err::<Client, ApiError>(ApiError::InvalidInput),
            api_key@.len() > 0 ==> (r matches Ok(c) && (c matches Client::Offline { api_key: k }
                && k@ == api_key@)),
    {
        if api_key.as_str().is_empty() {
            Err(ApiError::InvalidInput)
        } else {
            Ok(Client::Offline { api_key })
        }
    }

    /// The Basic-auth header value for a credential: the base64 encoding of
    /// `"api:"` followed by the key, prefixed with `"Basic "`.
    pub open spec fn spec_auth_header(key: Seq<char>) -> Seq<char> {
        "Basic "@ + base64_of("api:"@ + key)
    }

    fn auth_header(api_key: &str) -> (r: String)
        ensures
            r@ == Self::spec_auth_header(api_key@),
    {
        let joined = String::from_str("api:").concat(api_key);
        let tok = base64_encode(joined.as_str());
        String::from_str("Basic ").concat(tok.as_str())
    }

    /// Builds an authenticated transport and probes the status endpoint; the
    /// connected client is kept only when the probe body is `"ok"`, and any
    /// failure yields a fresh disconnected client with the same credential.
    /// Never fails.
    pub fn connect(&self) -> (r: Client)
        ensures
            r.spec_api_key() == self.spec_api_key(),
    {
        let auth = Self::auth_header(self.api_key().as_str());
        match build_transport(auth.as_str()) {
            Option::None => Client::Offline { api_key: self.api_key().clone() },
            Option::Some(rc) => {
                let candidate = Client::Online { api_key: self.api_key().clone(), req_client: rc };
                let probe = candidate.get_status();
                Self::resolve_connect(probe, candidate)
            },
        }
    }

    /// The connect decision: a probe body of exactly `"ok"` keeps the
    /// candidate client; any other body, or a failed probe, falls back to a
    /// disconnected client carrying the candidate's credential.
    pub fn resolve_connect(probe: Result<String, ApiError>, candidate: Client) -> (r: Client)
        ensures
            (probe matches Ok(s) && s@ == "ok"@) ==> r == candidate,
            !(probe matches Ok(s) && s@ == "ok"@) ==> (r matches Client::Offline { api_key: k }
                && k@ == candidate.spec_api_key()),
    {
        match probe {
            Result::Ok(body) => {
                if str_eq(body.as_str(), "ok") {
                    candidate
                } else {
                    Client::Offline { api_key: candidate.api_key().clone() }
                }
            },
            Result::Err(_) => Client::Offline { api_key: candidate.api_key().clone() },
        }
    }

    /// Serializes an optional parameter set into query pairs; no parameters
    /// give an empty list.
    pub fn parse_params(&self, params: Option<Params>) -> (r: Vec<(String, String)>)
        ensures
            pair_views(r@) == (match params {
                Option::None => Seq::<(Seq<char>, Seq<char>)>::empty(),
                Option::Some(p) => query_pairs(p),
            }),
    {
        match params {
            Option::None => {
                let v: Vec<(String, String)> = Vec::new();
                proof {
                    assert(pair_views(v@) =~= Seq::<(Seq<char>, Seq<char>)>::empty());
                }
                v
            },
            Option::Some(p) => pairs_for(&p),
        }
    }

    /// Issues one GET against the endpoint. Fails with `NotConnected` on a
    /// disconnected client; a transport failure is reported as
    /// `InvalidInput`.
    fn get_request(&self, endpoint: &str, params: Option<Params>) -> (r: Result<String, ApiError>)
        ensures
            self is Offline ==> r == Err::<String, ApiError>(ApiError::NotConnected),
            self is Online ==> (r is Ok || r == Err::<String, ApiError>(ApiError::InvalidInput)),
    {
        match self {
            Client::Offline { .. } => Err(ApiError::NotConnected),
            Client::Online { req_client, .. } => {
                let query_vec = self.parse_params(params);
                let url = String::from_str("https://velodata.app/api/v1/").concat(endpoint);
                match http_get_text(req_client, url.as_str(), &query_vec) {
                    Option::Some(t) => Ok(t),
                    Option::None => Err(ApiError::InvalidInput),
                }
            },
        }
    }

    /// Decodes a response body as CSV; a structural failure is
    /// `InvalidData`.
    fn parse_csv(&self, body: String) -> (r: Result<Table, ApiError>)
        ensures
            r is Ok <==> csv_shape_ok(body@),
            r is Err ==> r == Err::<Table, ApiError>(ApiError::InvalidData),
            r matches Ok(t) ==> decodes_to(body@, t),
    {
        decode_csv(body.as_str())
    }

    /// Fetches the status endpoint's body.
    pub fn get_status(&self) -> (r: Result<String, ApiError>)
        ensures
            self is Offline ==> r == Err::<String, ApiError>(ApiError::NotConnected),
            self is Online ==> (r is Ok || r == Err::<String, ApiError>(ApiError::InvalidInput)),
    {
        self.get_request("status", None)
    }

    /// Fetches the futures endpoint and decodes the body as a table.
    pub fn get_futures(&self) -> (r: Result<Table, ApiError>)
        ensures
            self is Offline ==> r == Err::<Table, ApiError>(ApiError::NotConnected),
            self is Online ==> (r is Ok || r == Err::<Table, ApiError>(ApiError::InvalidInput)
                || r == Err::<Table, ApiError>(ApiError::InvalidData)),
            r matches Ok(t) ==> (t.wf() && exists|body: Seq<char>|
                csv_shape_ok(body) && #[trigger] decodes_to(body, t)),
    {
        let req = match self.get_request("futures", None) {
            Result::Ok(t) => t,
            Result::Err(e) => {
                return Err(e);
            },
        };
        self.parse_csv(req)
    }

    /// Fetches the options endpoint and decodes the body as a table.
    pub fn get_options(&self) -> (r: Result<Table, ApiError>)
        ensures
            self is Offline ==> r == Err::<Table, ApiError>(ApiError::NotConnected),
            self is Online ==> (r is Ok || r == Err::<Table, ApiError>(ApiError::InvalidInput)
                || r == Err::<Table, ApiError>(ApiError::InvalidData)),
            r matches Ok(t) ==> (t.wf() && exists|body: Seq<char>|
                csv_shape_ok(body) && #[trigger] decodes_to(body, t)),
    {
        let req = match self.get_request("options", None) {
            Result::Ok(t) => t,
            Result::Err(e) => {
                return Err(e);
            },
        };
        self.parse_csv(req)
    }

    /// Fetches the spot endpoint and decodes the body as a table.
    pub fn get_spot(&self) -> (r: Result<Table, ApiError>)
        ensures
            self is Offline ==> r == Err::<Table, ApiError>(ApiError::NotConnected),
            self is Online ==> (r is Ok || r == Err::<Table, ApiError>(ApiError::InvalidInput)
                || r == Err::<Table, ApiError>(ApiError::InvalidData)),
            r matches Ok(t) ==> (t.wf() && exists|body: Seq<char>|
                csv_shape_ok(body) && #[trigger] decodes_to(body, t)),
    {
        let req = match self.get_request("spot", None) {
            Result::Ok(t) => t,
            Result::Err(e) => {
                return Err(e);
            },
        };
        self.parse_csv(req)
    }

    /// Fetches the rows endpoint for a row query. Any parameter set other
    /// than a row query fails with `InvalidInput`, before any state check.
    pub fn get_rows(&self, params: Params) -> (r: Result<Table, ApiError>)
        ensures
            params is Terms || params is Caps ==> r == Err::<Table, ApiError>(
                ApiError::InvalidInput,
            ),
            (params is RowsCoins || params is RowsProducts) && self is Offline ==> r == Err::<
                Table,
                ApiError,
            >(ApiError::NotConnected),
            self is Online ==> (r is Ok || r == Err::<Table, ApiError>(ApiError::InvalidInput)
                || r == Err::<Table, ApiError>(ApiError::InvalidData)),
            r matches Ok(t) ==> (t.wf() && exists|body: Seq<char>|
                csv_shape_ok(body) && #[trigger] decodes_to(body, t)),
    {
        let is_rows = match &params {
            Params::RowsCoins { .. } => true,
            Params::RowsProducts { .. } => true,
            _ => false,
        };
        if !is_rows {
            return Err(ApiError::InvalidInput);
        }
        let req = match self.get_request("rows", Some(params)) {
            Result::Ok(t) => t,
            Result::Err(e) => {
                return Err(e);
            },
        };
        self.parse_csv(req)
    }

    /// Fetches the term-structure endpoint. Any parameter set other than a
    /// term-structure query fails with `InvalidInput`.
    pub fn get_term_structure(&self, params: Params) -> (r: Result<Table, ApiError>)
        ensures
            !(params is Terms) ==> r == Err::<Table, ApiError>(ApiError::InvalidInput),
            params is Terms && self is Offline ==> r == Err::<Table, ApiError>(
                ApiError::NotConnected,
            ),
            self is Online ==> (r is Ok || r == Err::<Table, ApiError>(ApiError::InvalidInput)
                || r == Err::<Table, ApiError>(ApiError::InvalidData)),
            r matches Ok(t) ==> (t.wf() && exists|body: Seq<char>|
                csv_shape_ok(body) && #[trigger] decodes_to(body, t)),
    {
        let is_terms = match &params {
            Params::Terms { .. } => true,
            _ => false,
        };
        if !is_terms {
            return Err(ApiError::InvalidInput);
        }
        let req = match self.get_request("terms", Some(params)) {
            Result::Ok(t) => t,
            Result::Err(e) => {
                return Err(e);
            },
        };
        self.parse_csv(req)
    }

    /// Fetches the market-caps endpoint. Any parameter set other than a
    /// market-caps query fails with `InvalidInput`.
    pub fn get_market_caps(&self, params: Params) -> (r: Result<Table, ApiError>)
        ensures
            !(params is Caps) ==> r == Err::<Table, ApiError>(ApiError::InvalidInput),
            params is Caps && self is Offline ==> r == Err::<Table, ApiError>(
                ApiError::NotConnected,
            ),
            self is Online ==> (r is Ok || r == Err::<Table, ApiError>(ApiError::InvalidInput)
                || r == Err::<Table, ApiError>(ApiError::InvalidData)),
            r matches Ok(t) ==> (t.wf() && exists|body: Seq<char>|
                csv_shape_ok(body) && #[trigger] decodes_to(body, t)),
    {
        let is_caps = match &params {
            Params::Caps { .. } => true,
            _ => false,
        };
        if !is_caps {
            return Err(ApiError::InvalidInput);
        }
        let req = match self.get_request("caps", Some(params)) {
            Result::Ok(t) => t,
            Result::Err(e) => {
                return Err(e);
            },
        };
        self.parse_csv(req)
    }
}

} // verus!
