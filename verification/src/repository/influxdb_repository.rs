use vstd::prelude::*;
use vstd::string::StringExecFns;

use crate::mapper::request_mapper::{get_request, token_header_chars, RequestSpec,
    DEFAULT_TIMEOUT_SECS};
use crate::mapper::url_mapper::{read_url_chars, to_influxdb_read_url, to_influxdb_write_url,
    write_url_chars};
use crate::model::influxdb_config::InfluxdbConfig;

verus! {

/// Assembles the authenticated request for one write call: a POST to the
/// configuration's write URL, carrying only the `Token` authorization header,
/// the given line-protocol body, and the default timeout. Dispatching it and
/// classifying the captured outcome with the response classifier is the
/// caller's transport's part; nothing can fail here.
pub fn build_write_request(
    influxdb_token: String,
    influxdb_config: &InfluxdbConfig,
    body: String,
) -> (r: RequestSpec)
    ensures
        r.url@ == write_url_chars(*influxdb_config),
        r.headers@.len() == 1,
        r.headers@[0].0@ == "Authorization"@,
        r.headers@[0].1@ == token_header_chars(influxdb_token@),
        r.body@ == body@,
        r.timeout_secs == DEFAULT_TIMEOUT_SECS,
{
    let url = to_influxdb_write_url(influxdb_config);
    get_request(influxdb_token, url, body)
}

/// Assembles the authenticated request for one query call: a POST to the
/// configuration's query URL with the same authorization header and, after
/// assembly, the flux content type merged in as a second header.
pub fn build_read_request(
    influxdb_token: String,
    influxdb_config: &InfluxdbConfig,
    body: String,
) -> (r: RequestSpec)
    ensures
        r.url@ == read_url_chars(*influxdb_config),
        r.headers@.len() == 2,
        r.headers@[0].0@ == "Authorization"@,
        r.headers@[0].1@ == token_header_chars(influxdb_token@),
        r.headers@[1].0@ == "Content-Type"@,
        r.headers@[1].1@ == "application/vnd.flux"@,
        r.body@ == body@,
        r.timeout_secs == DEFAULT_TIMEOUT_SECS,
{
    let url = to_influxdb_read_url(influxdb_config);
    let request = get_request(influxdb_token, url, body);
    request.with_header(
        String::from_str("Content-Type"),
        String::from_str("application/vnd.flux"),
    )
}

} // verus!
