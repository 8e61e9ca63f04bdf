pub mod error;
pub mod mapper;
pub mod model;
pub mod repository;
