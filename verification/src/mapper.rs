pub mod influxdb_payload_mapper;
pub mod request_mapper;
pub mod response_mapper;
pub mod url_mapper;
