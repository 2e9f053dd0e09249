//! The settings of one running server, and how they are read from the
//! values found in the environment.

use crate::config::port::{parse_port, parsed_port};
use vstd::prelude::*;
use vstd::string::StringExecFns;

verus! {

/// Name of the environment variable that holds the host to listen on.
pub const SERVER_HOST: &'static str = "SERVER_HOST";

/// Name of the environment variable that holds the port to listen on.
pub const SERVER_PORT: &'static str = "SERVER_PORT";

/// Name of the environment variable that holds the upstream API's base URL.
pub const CLASH_API_BASE_URL: &'static str = "CLASH_API_BASE_URL";

/// Name of the environment variable that holds the upstream API's token.
pub const CLASH_API_TOKEN: &'static str = "CLASH_API_TOKEN";

/// Everything the server is configured with. Built once at start and only
/// read afterwards.
#[derive(Debug, Clone, PartialEq)]
pub struct Settings {
    pub server: ServerSettings,
    pub clash_api: ClashApiSettings,
}

/// The address the server listens on.
#[derive(Debug, Clone, PartialEq)]
pub struct ServerSettings {
    pub host: String,
    pub port: u16,
}

/// How the upstream API is reached: its base URL and the bearer token sent
/// with every request.
#[derive(Debug, Clone, PartialEq)]
pub struct ClashApiSettings {
    pub base_url: String,
    pub token: String,
}

/// [`ServerSettings`] with its text as a character sequence.
pub struct ServerSettingsView {
    pub host: Seq<char>,
    pub port: u16,
}

/// [`ClashApiSettings`] with its texts as character sequences.
pub struct ClashApiSettingsView {
    pub base_url: Seq<char>,
    pub token: Seq<char>,
}

/// [`Settings`] with its texts as character sequences.
pub struct SettingsView {
    pub server: ServerSettingsView,
    pub clash_api: ClashApiSettingsView,
}

impl View for ServerSettings {
    type V = ServerSettingsView;

    open spec fn view(&self) -> ServerSettingsView {
        ServerSettingsView { host: self.host@, port: self.port }
    }
}

impl View for ClashApiSettings {
    type V = ClashApiSettingsView;

    open spec fn view(&self) -> ClashApiSettingsView {
        ClashApiSettingsView { base_url: self.base_url@, token: self.token@ }
    }
}

impl View for Settings {
    type V = SettingsView;

    open spec fn view(&self) -> SettingsView {
        SettingsView { server: self.server@, clash_api: self.clash_api@ }
    }
}

/// The settings used where the environment says nothing.
pub open spec fn default_settings() -> SettingsView {
    SettingsView {
        server: ServerSettingsView { host: "127.0.0.1"@, port: 8080 },
        clash_api: ClashApiSettingsView {
            base_url: "https://api.clashroyale.com/v1"@,
            token: "YOUR_API_TOKEN_HERE"@,
        },
    }
}

impl Default for Settings {
    fn default() -> (settings: Settings)
        ensures
            settings@ == default_settings(),
    {
        Settings {
            server: ServerSettings { host: String::from_str("127.0.0.1"), port: 8080 },
            clash_api: ClashApiSettings {
                base_url: String::from_str("https://api.clashroyale.com/v1"),
                token: String::from_str("YOUR_API_TOKEN_HERE"),
            },
        }
    }
}

/// The four values the settings are read from, each as found in the
/// environment: `None` where the variable is unset or is not valid Unicode.
#[derive(Debug, Clone, PartialEq)]
pub struct EnvValues {
    pub server_host: Option<String>,
    pub server_port: Option<String>,
    pub clash_api_base_url: Option<String>,
    pub clash_api_token: Option<String>,
}

/// Why the environment's values do not make settings.
#[derive(Debug, Clone, PartialEq)]
pub enum ConfigError {
    /// The port's text does not denote a port; holds that text.
    InvalidPort(String),
}

/// A value from the environment, or the fallback where there is none.
pub open spec fn value_or(value: Option<String>, fallback: Seq<char>) -> Seq<char> {
    match value {
        Some(text) => text@,
        None => fallback,
    }
}

/// The settings that the environment's values make, where the port's text
/// denotes a port.
pub open spec fn settings_from(env: EnvValues) -> SettingsView {
    SettingsView {
        server: ServerSettingsView {
            host: value_or(env.server_host, default_settings().server.host),
            port: match env.server_port {
                Some(text) => parsed_port(text@).unwrap(),
                None => default_settings().server.port,
            },
        },
        clash_api: ClashApiSettingsView {
            base_url: value_or(env.clash_api_base_url, default_settings().clash_api.base_url),
            token: value_or(env.clash_api_token, default_settings().clash_api.token),
        },
    }
}

/// Whether the environment's values make settings: the port is unset, or
/// its text denotes a port.
pub open spec fn port_is_readable(env: EnvValues) -> bool {
    match env.server_port {
        Some(text) => parsed_port(text@) is Some,
        None => true,
    }
}

fn text_or(value: Option<String>, fallback: &str) -> (text: String)
    ensures
        text@ == value_or(value, fallback@),
{
    match value {
        Some(text) => text,
        None => String::from_str(fallback),
    }
}

impl Settings {
    /// Builds the settings from the values found in the environment. Each
    /// value that is absent falls back to its default. Fails exactly where a
    /// port is given whose text does not denote one, and then hands that
    /// text back.
    pub fn from_env(env: EnvValues) -> (outcome: Result<Settings, ConfigError>)
        ensures
            match outcome {
                Ok(settings) => port_is_readable(env) && settings@ == settings_from(env),
                Err(ConfigError::InvalidPort(text)) => !port_is_readable(env) && Some(text)
                    == env.server_port,
            },
    {
        let port: u16 = match env.server_port {
            Some(text) => match parse_port(text.as_str()) {
                Some(port) => port,
                None => {
                    return Err(ConfigError::InvalidPort(text));
                },
            },
            None => 8080,
        };
        Ok(
            Settings {
                server: ServerSettings { host: text_or(env.server_host, "127.0.0.1"), port },
                clash_api: ClashApiSettings {
                    base_url: text_or(env.clash_api_base_url, "https://api.clashroyale.com/v1"),
                    token: text_or(env.clash_api_token, "YOUR_API_TOKEN_HERE"),
                },
            },
        )
    }
}

/// With nothing set in the environment, the settings are the defaults.
pub proof fn lemma_empty_env_gives_defaults(env: EnvValues)
    requires
        env.server_host is None,
        env.server_port is None,
        env.clash_api_base_url is None,
        env.clash_api_token is None,
    ensures
        port_is_readable(env),
        settings_from(env) == default_settings(),
{
}

} // verus!
