//! Access to the upstream API.

pub mod clash_api_repository;

pub use clash_api_repository::ClashApiRepository;
