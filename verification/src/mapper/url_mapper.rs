use vstd::prelude::*;
use vstd::string::StringExecFns;

use crate::model::influxdb_config::InfluxdbConfig;

verus! {

/// The write endpoint for a configuration: the address followed by the
/// versioned write path, with the organisation, bucket and second precision
/// spliced into the query string verbatim.
pub open spec fn write_url_chars(config: InfluxdbConfig) -> Seq<char> {
    config.address@ + "/api/v2/write?org="@ + config.organisation@ + "&bucket="@
        + config.bucket@ + "&precision=s"@
}

/// The query endpoint for a configuration: the address followed by the
/// versioned query path, with the organisation spliced in verbatim.
pub open spec fn read_url_chars(config: InfluxdbConfig) -> Seq<char> {
    config.address@ + "/api/v2/query?org="@ + config.organisation@
}

/// Builds the fully qualified write URL. Pure and total: no escaping is
/// applied, the configuration's fields are taken as already URL-safe.
pub fn to_influxdb_write_url(influxdb_config: &InfluxdbConfig) -> (url: String)
    ensures
        url@ == write_url_chars(*influxdb_config),
{
    let mut url = influxdb_config.address.clone();
    url.append("/api/v2/write?org=");
    url.append(influxdb_config.organisation.as_str());
    url.append("&bucket=");
    url.append(influxdb_config.bucket.as_str());
    url.append("&precision=s");
    url
}

/// Builds the fully qualified query URL. Pure and total, with no escaping.
pub fn to_influxdb_read_url(influxdb_config: &InfluxdbConfig) -> (url: String)
    ensures
        url@ == read_url_chars(*influxdb_config),
{
    let mut url = influxdb_config.address.clone();
    url.append("/api/v2/query?org=");
    url.append(influxdb_config.organisation.as_str());
    url
}

} // verus!
