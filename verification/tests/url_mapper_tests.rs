use influxdb_client::mapper::url_mapper::{to_influxdb_read_url, to_influxdb_write_url};
use influxdb_client::model::influxdb_config::InfluxdbConfig;

fn config() -> InfluxdbConfig {
    InfluxdbConfig {
        address: "address".to_string(),
        organisation: "organisation".to_string(),
        bucket: "bucket".to_string(),
        influxdb_token_path: "influxdb_token_path".to_string(),
    }
}

#[test]
fn to_influxdb_write_url_correct() {
    let result = to_influxdb_write_url(&config());
    assert_eq!("address/api/v2/write?org=organisation&bucket=bucket&precision=s", result);
}

#[test]
fn to_influxdb_read_url_correct() {
    let result = to_influxdb_read_url(&config());
    assert_eq!("address/api/v2/query?org=organisation", result);
}

#[test]
fn urls_take_fields_verbatim_without_encoding() {
    let config = InfluxdbConfig {
        address: "http://h:8086".to_string(),
        organisation: "org name".to_string(),
        bucket: "b&b".to_string(),
        influxdb_token_path: "unused".to_string(),
    };
    assert_eq!(
        "http://h:8086/api/v2/write?org=org name&bucket=b&b&precision=s",
        to_influxdb_write_url(&config)
    );
    assert_eq!("http://h:8086/api/v2/query?org=org name", to_influxdb_read_url(&config));
}

#[test]
fn config_clone_keeps_fields() {
    let original = config();
    let copy = original.clone();
    assert_eq!(original, copy);
}

#[test]
fn config_equality_compares_all_fields() {
    let mut other = config();
    assert_eq!(config(), other);
    other.bucket = "other".to_string();
    assert_ne!(config(), other);
}
