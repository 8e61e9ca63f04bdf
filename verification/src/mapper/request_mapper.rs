use vstd::prelude::*;
use vstd::string::StringExecFns;

verus! {

/// The timeout applied to every assembled request, in seconds. Callers that
/// need another bound can overwrite the field on the assembled value.
pub const DEFAULT_TIMEOUT_SECS: u64 = 5;

/// An assembled POST request, ready for a transport: the verbatim URL, the
/// ordered header list, the body, and the timeout in seconds. The value is
/// built per call, handed to the caller's HTTP client for dispatch, and
/// discarded afterwards.
pub struct RequestSpec {
    pub url: String,
    pub headers: Vec<(String, String)>,
    pub body: String,
    pub timeout_secs: u64,
}

/// The authorization header value for a token: the target system's own
/// `Token` scheme, not a generic bearer scheme.
pub open spec fn token_header_chars(token: Seq<char>) -> Seq<char> {
    "Token "@ + token
}

/// Assembles the request for one call: a POST to `url` carrying exactly one
/// header, `Authorization: Token {influxdb_token}`, the given body, and the
/// default timeout. Nothing can fail here; the function only arranges data.
pub fn get_request(influxdb_token: String, url: String, body: String) -> (r: RequestSpec)
    ensures
        r.url@ == url@,
        r.headers@.len() == 1,
        r.headers@[0].0@ == "Authorization"@,
        r.headers@[0].1@ == token_header_chars(influxdb_token@),
        r.body@ == body@,
        r.timeout_secs == DEFAULT_TIMEOUT_SECS,
{
    let auth = String::from_str("Token ").concat(influxdb_token.as_str());
    let mut headers: Vec<(String, String)> = Vec::new();
    headers.push((String::from_str("Authorization"), auth));
    RequestSpec { url, headers, body, timeout_secs: DEFAULT_TIMEOUT_SECS }
}

impl RequestSpec {
    /// The caller-supplied headers-merge step: the same request with one more
    /// header appended after the existing ones.
    pub fn with_header(self, name: String, value: String) -> (r: RequestSpec)
        ensures
            r.url == self.url,
            r.body == self.body,
            r.timeout_secs == self.timeout_secs,
            r.headers@ == self.headers@.push((name, value)),
    {
        let RequestSpec { url, mut headers, body, timeout_secs } = self;
        headers.push((name, value));
        RequestSpec { url, headers, body, timeout_secs }
    }
}

} // verus!
