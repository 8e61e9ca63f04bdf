pub mod influxdb_config;
