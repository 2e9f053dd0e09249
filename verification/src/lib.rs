//! Decision core of a small HTTP backend that serves Clash Royale player
//! profiles fetched from the upstream game-statistics API.
//!
//! The library never touches the network: the caller performs the
//! exchange and hands the outcome back. All but one function is a function
//! of its arguments and states in its contract exactly what it answers. The
//! one exception is the health report, which reads the clock: its contract
//! fixes everything but the instant, of which it states the shape.

pub mod config;
pub mod encoding;
pub mod handlers;
pub mod models;
pub mod repositories;
pub mod services;

pub use config::Settings;
pub use handlers::{health, player};
pub use models::{ApiError, ApiErrorResponse, Player};
pub use repositories::ClashApiRepository;
pub use services::PlayerService;
