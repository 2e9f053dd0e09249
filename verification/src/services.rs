//! The rules applied to a lookup before and after the upstream API is asked.

pub mod clash_api;
pub mod player_service;

pub use clash_api::ClashApiService;
pub use player_service::PlayerService;
