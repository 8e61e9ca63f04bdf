pub mod influxdb_error;
