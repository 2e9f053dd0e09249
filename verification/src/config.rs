//! Where the server listens and how the upstream API is reached.

pub mod port;
pub mod settings;

pub use settings::{
    ClashApiSettings, ClashApiSettingsView, ConfigError, EnvValues, ServerSettings,
    ServerSettingsView, Settings, SettingsView,
};
