//! Trusted boundary to the HTTP transport and the credential encoding.
//!
//! Everything here either declares an outside type or wraps one outside
//! call; the verifier believes the stated contracts.
use vstd::prelude::*;

verus! {

/// An authenticated transport session, opaque to the verifier: it holds
/// reqwest's blocking HTTP client.
#[derive(Debug)]
#[verifier::external_body]
pub struct Transport {
    inner: reqwest::blocking::Client,
}

impl Clone for Transport {
    /// Relies on `reqwest::blocking::Client::clone`: another handle to the
    /// same session.
    #[verifier::external_body]
    fn clone(&self) -> (r: Self) {
        Transport { inner: self.inner.clone() }
    }
}

/// What standard-alphabet base64 encoding returns for the bytes of a text:
/// a function of the characters alone.
pub uninterp spec fn base64_of(s: Seq<char>) -> Seq<char>;

/// Relies on `base64::Engine::encode` with
/// `base64::engine::general_purpose::STANDARD`: the padded standard-alphabet
/// encoding of the input bytes, a deterministic function of the input alone.
#[verifier::external_body]
pub(crate) fn base64_encode(s: &str) -> (r: String)
    ensures
        r@ == base64_of(s@),
{
    base64::Engine::encode(&base64::engine::general_purpose::STANDARD, s.as_bytes())
}

/// Relies on `reqwest::blocking::ClientBuilder`: builds a client that sends
/// the given value in an `Authorization` header on every request, or yields
/// `None` when the header value or the client cannot be built.
#[verifier::external_body]
pub(crate) fn build_transport(auth: &str) -> (r: Option<Transport>) {
    let value = match reqwest::header::HeaderValue::from_str(auth) {
        Ok(v) => v,
        Err(_) => return None,
    };
    let mut headers = reqwest::header::HeaderMap::new();
    headers.insert(reqwest::header::AUTHORIZATION, value);
    match reqwest::blocking::Client::builder().default_headers(headers).build() {
        Ok(c) => Some(Transport { inner: c }),
        Err(_) => None,
    }
}

/// Relies on `reqwest::blocking::Client::get`, `RequestBuilder::query` and
/// `send`, and `Response::text`: issues one blocking GET for the URL with
/// the given query pairs and yields the response body, or `None` on any
/// transport or body-decoding failure. The outcome depends on the network,
/// so nothing is promised of it.
#[verifier::external_body]
pub(crate) fn http_get_text(
    transport: &Transport,
    url: &str,
    query: &Vec<(String, String)>,
) -> (r: Option<String>) {
    let resp = match transport.inner.get(url).query(query).send() {
        Ok(resp) => resp,
        Err(_) => return None,
    };
    match resp.text() {
        Ok(t) => Some(t),
        Err(_) => None,
    }
}

} // verus!
