use vstd::prelude::*;

verus! {

/// Connection settings for one InfluxDB endpoint: the URL prefix under which
/// the API lives, the organisation and bucket that writes are addressed to,
/// and a location reference from which the caller resolves the access token.
///
/// The values are trusted, pre-validated strings: they are spliced into URLs
/// verbatim, with no escaping or encoding applied. The value is built once at
/// startup and passed by reference to every call; nothing here mutates it.
#[derive(Debug)]
pub struct InfluxdbConfig {
    pub address: String,
    pub organisation: String,
    pub bucket: String,
    pub influxdb_token_path: String,
}

impl PartialEq for InfluxdbConfig {
    fn eq(&self, other: &InfluxdbConfig) -> bool {
        self.address == other.address && self.organisation == other.organisation
            && self.bucket == other.bucket
            && self.influxdb_token_path == other.influxdb_token_path
    }
}

impl vstd::std_specs::cmp::PartialEqSpecImpl for InfluxdbConfig {
    open spec fn obeys_eq_spec() -> bool {
        true
    }

    open spec fn eq_spec(&self, other: &InfluxdbConfig) -> bool {
        self.address@ == other.address@ && self.organisation@ == other.organisation@
            && self.bucket@ == other.bucket@
            && self.influxdb_token_path@ == other.influxdb_token_path@
    }
}

impl Clone for InfluxdbConfig {
    fn clone(&self) -> (r: Self)
        ensures
            r == *self,
    {
        InfluxdbConfig {
            address: self.address.clone(),
            organisation: self.organisation.clone(),
            bucket: self.bucket.clone(),
            influxdb_token_path: self.influxdb_token_path.clone(),
        }
    }
}

} // verus!
