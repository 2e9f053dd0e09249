//! What each route answers.

pub mod health;
pub mod player;
pub mod root;
