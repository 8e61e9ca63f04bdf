pub mod influxdb_repository;
