//! The mihomo REST API as the client addresses it: the base URL and secret,
//! the path of every endpoint, and the addresses of the streaming
//! WebSocket endpoints. Sending the requests is done by the caller.

use vstd::prelude::*;
use vstd::utf8::encode_utf8;
use crate::text::{
    chars_of, concat, owned, replace_all, str_is_empty, str_replace, str_trim_end_char, trim_end_char,
};

verus! {

/// Whether a byte is left as it is by URL encoding: ASCII letters and
/// digits, `-`, `.`, `_` and `~`.
pub open spec fn is_unreserved(b: u8) -> bool {
    (48 <= b <= 57) || (65 <= b <= 90) || (97 <= b <= 122) || b == 45 || b == 46 || b == 95 || b == 126
}

/// An uppercase hexadecimal digit.
pub open spec fn hex_upper(d: nat) -> char {
    if d < 10 { (48 + d) as char } else { (55 + d) as char }
}

/// The percent-encoding of bytes: unreserved bytes as themselves, every
/// other byte as `%` and two uppercase hex digits.
pub open spec fn percent_encode(bs: Seq<u8>) -> Seq<char>
    decreases bs.len(),
{
    if bs.len() == 0 {
        seq![]
    } else {
        let b = bs.last();
        percent_encode(bs.drop_last()) + (if is_unreserved(b) {
            seq![b as char]
        } else {
            seq!['%', hex_upper((b / 16) as nat), hex_upper((b % 16) as nat)]
        })
    }
}

/// The URL encoding of a text: the percent-encoding of its UTF-8 bytes.
pub open spec fn url_encoded(s: Seq<char>) -> Seq<char> {
    percent_encode(encode_utf8(s))
}

/// `urlencoding::encode`: percent-encodes every UTF-8 byte of the text
/// except ASCII alphanumerics and `-`, `_`, `.`, `~`, with uppercase hex
/// digits.
#[verifier::external_body]
fn url_encode(s: &str) -> (r: String)
    ensures
        r@ == url_encoded(s@),
{
    urlencoding::encode(s).into_owned()
}

/// The HTTP method of a request.
#[derive(Debug, Clone, Copy, PartialEq, Eq, Structural)]
pub enum HttpMethod {
    Get,
    Put,
    Patch,
    Delete,
}

/// HTTP client settings for the mihomo external controller API.
#[derive(Debug, Clone)]
pub struct MihomoClient {
    base_url: String,
    secret: String,
}

impl MihomoClient {
    /// The base URL, as characters.
    pub closed spec fn base(&self) -> Seq<char> {
        self.base_url@
    }

    /// The secret, as characters.
    pub closed spec fn secret_text(&self) -> Seq<char> {
        self.secret@
    }

    /// A client for `base_url` (trailing `/` removed) with the bearer
    /// `secret` (may be empty).
    pub fn new(base_url: &str, secret: &str) -> (c: Self)
        ensures
            c.base() == trim_end_char(base_url@, '/'),
            c.secret_text() == secret@,
    {
        MihomoClient { base_url: str_trim_end_char(base_url, '/'), secret: owned(secret) }
    }

    /// The full URL of an API path.
    pub fn url(&self, path: &str) -> (r: String)
        ensures
            r@ == self.base() + path@,
    {
        concat(self.base_url.as_str(), path)
    }

    /// The bearer token to send, when the secret is not empty.
    pub fn bearer(&self) -> (r: Option<&str>)
        ensures
            r is Some <==> self.secret_text().len() > 0,
            r matches Some(t) ==> t@ == self.secret_text(),
    {
        if str_is_empty(self.secret.as_str()) {
            None
        } else {
            Some(self.secret.as_str())
        }
    }

    /// The message for a non-2xx response.
    pub fn api_error_message(status: &str, body: &str) -> (r: String)
        ensures
            r@ == "API error (HTTP "@ + status@ + "): "@ + body@,
    {
        let a = concat("API error (HTTP ", status);
        let b = concat(a.as_str(), "): ");
        concat(b.as_str(), body)
    }

    /// `GET /proxies`.
    pub fn proxies_path() -> (r: &'static str)
        ensures
            r@ == "/proxies"@,
    {
        "/proxies"
    }

    /// `GET`/`PUT /proxies/:name`, the name URL-encoded.
    pub fn proxy_path(name: &str) -> (r: String)
        ensures
            r@ == "/proxies/"@ + url_encoded(name@),
    {
        concat("/proxies/", url_encode(name).as_str())
    }

    /// `GET /proxies/:name/delay`.
    pub fn proxy_delay_path(name: &str) -> (r: String)
        ensures
            r@ == "/proxies/"@ + url_encoded(name@) + "/delay"@,
    {
        let p = Self::proxy_path(name);
        concat(p.as_str(), "/delay")
    }

    /// `DELETE /connections`, `GET /connections`.
    pub fn connections_path() -> (r: &'static str)
        ensures
            r@ == "/connections"@,
    {
        "/connections"
    }

    /// `DELETE /connections/:id` (the id is sent as it is).
    pub fn connection_path(id: &str) -> (r: String)
        ensures
            r@ == "/connections/"@ + id@,
    {
        concat("/connections/", id)
    }

    /// `GET /rules`.
    pub fn rules_path() -> (r: &'static str)
        ensures
            r@ == "/rules"@,
    {
        "/rules"
    }

    /// `GET /providers/proxies`.
    pub fn proxy_providers_path() -> (r: &'static str)
        ensures
            r@ == "/providers/proxies"@,
    {
        "/providers/proxies"
    }

    /// `PUT /providers/proxies/:name`.
    pub fn proxy_provider_path(name: &str) -> (r: String)
        ensures
            r@ == "/providers/proxies/"@ + url_encoded(name@),
    {
        concat("/providers/proxies/", url_encode(name).as_str())
    }

    /// `GET /providers/proxies/:name/healthcheck`.
    pub fn proxy_provider_healthcheck_path(name: &str) -> (r: String)
        ensures
            r@ == "/providers/proxies/"@ + url_encoded(name@) + "/healthcheck"@,
    {
        let p = Self::proxy_provider_path(name);
        concat(p.as_str(), "/healthcheck")
    }

    /// `GET /providers/rules`.
    pub fn rule_providers_path() -> (r: &'static str)
        ensures
            r@ == "/providers/rules"@,
    {
        "/providers/rules"
    }

    /// `PUT /providers/rules/:name`.
    pub fn rule_provider_path(name: &str) -> (r: String)
        ensures
            r@ == "/providers/rules/"@ + url_encoded(name@),
    {
        concat("/providers/rules/", url_encode(name).as_str())
    }

    /// `GET`/`PATCH`/`PUT /configs`.
    pub fn configs_path() -> (r: &'static str)
        ensures
            r@ == "/configs"@,
    {
        "/configs"
    }

    /// `GET /version`.
    pub fn version_path() -> (r: &'static str)
        ensures
            r@ == "/version"@,
    {
        "/version"
    }

    /// The WebSocket base URL: `http://` becomes `ws://` and `https://`
    /// becomes `wss://`.
    pub fn ws_base_url(&self) -> (r: String)
        ensures
            r@ == replace_all(replace_all(self.base(), "http://"@, "ws://"@), "https://"@, "wss://"@),
    {
        proof {
            reveal_strlit("http://");
            reveal_strlit("https://");
        }
        let a = str_replace(self.base_url.as_str(), "http://", "ws://");
        str_replace(a.as_str(), "https://", "wss://")
    }

    /// The secret (for WebSocket auth).
    pub fn secret(&self) -> (r: &str)
        ensures
            r@ == self.secret_text(),
    {
        self.secret.as_str()
    }
}

/// The address of a streaming endpoint: the base URL with `ws://` or
/// `wss://`, without trailing `/`, then the path, then `token=` and the
/// secret when there is one: after `?`, or after `&` when the path already
/// holds a query.
pub open spec fn ws_url_text(base_url: Seq<char>, path: Seq<char>, secret: Seq<char>) -> Seq<char> {
    let base = replace_all(replace_all(base_url, "http://"@, "ws://"@), "https://"@, "wss://"@);
    let trimmed = trim_end_char(base, '/');
    if secret.len() == 0 {
        trimmed + path
    } else if path.contains('?') {
        trimmed + path + "&token="@ + secret
    } else {
        trimmed + path + "?token="@ + secret
    }
}

/// Build a WebSocket URL from an HTTP base URL and a path.
pub fn ws_url(base_url: &str, path: &str, secret: &str) -> (r: String)
    ensures
        r@ == ws_url_text(base_url@, path@, secret@),
{
    proof {
        reveal_strlit("http://");
        reveal_strlit("https://");
    }
    let a = str_replace(base_url, "http://", "ws://");
    let base = str_replace(a.as_str(), "https://", "wss://");
    let trimmed = str_trim_end_char(base.as_str(), '/');
    let with_path = concat(trimmed.as_str(), path);
    if str_is_empty(secret) {
        with_path
    } else {
        let p = chars_of(path);
        let mut has_query = false;
        let mut i: usize = 0;
        while i < p.len()
            invariant
                i <= p@.len(),
                p@ == path@,
                has_query <==> exists|j: int| 0 <= j < i && p@[j] == '?',
            decreases p@.len() - i,
        {
            if p[i] == '?' {
                has_query = true;
            }
            i = i + 1;
        }
        assert(has_query <==> path@.contains('?'));
        let t = if has_query {
            concat(with_path.as_str(), "&token=")
        } else {
            concat(with_path.as_str(), "?token=")
        };
        concat(t.as_str(), secret)
    }
}

/// The path of the `/logs` stream, with a level filter when given.
pub fn log_stream_path(level: Option<&str>) -> (r: String)
    ensures
        level matches Some(l) ==> r@ == "/logs?level="@ + l@,
        level is None ==> r@ == "/logs"@,
{
    match level {
        Some(l) => concat("/logs?level=", l),
        None => owned("/logs"),
    }
}

/// The path of the `/traffic` stream.
pub fn traffic_stream_path() -> (r: &'static str)
    ensures
        r@ == "/traffic"@,
{
    "/traffic"
}

/// The path of the `/memory` stream.
pub fn memory_stream_path() -> (r: &'static str)
    ensures
        r@ == "/memory"@,
{
    "/memory"
}

/// The address that latency tests ask each proxy to reach.
pub fn delay_test_url() -> (r: &'static str)
    ensures
        r@ == "https://www.gstatic.com/generate_204"@,
{
    "https://www.gstatic.com/generate_204"
}

/// How long a latency test may take, in milliseconds.
pub const DELAY_TIMEOUT_MS: u64 = 5000;

/// The message when a WebSocket connection fails.
pub fn ws_connect_error(url: &str) -> (r: String)
    ensures
        r@ == "WebSocket connect failed: "@ + url@,
{
    concat("WebSocket connect failed: ", url)
}

} // verus!
