//! The service's settings: the default url, over it the file
//! `config/default` (in any format the `config` crate knows) where it exists,
//! and over both the environment variables that start with `APP`, with `__`
//! between the levels of a key.

use ::config::{Config, Environment, File};
use vstd::prelude::*;

use crate::error::ConfigError;

verus! {

/// Where the settings are read from, and which setting is the url.
#[derive(Debug)]
pub struct SettingsSources {
    /// The base name of the configuration file; its extension names its format.
    pub file: String,
    /// Whether a missing file is an error.
    pub file_required: bool,
    /// The prefix of the environment variables that are read.
    pub env_prefix: String,
    /// What separates the levels of a key in an environment variable's name.
    pub env_separator: String,
    /// The setting that holds the url.
    pub key: String,
    /// The url where neither the file nor the environment gives one.
    pub default_url: String,
}

/// The sources of the service's settings: the file `config/default`, which
/// may be missing, the environment variables with the prefix `APP` and the
/// separator `__`, the key `url`, and the default url `http://[::]:50051`.
pub fn settings_sources() -> (s: SettingsSources)
    ensures
        s.file@ == "config/default"@,
        !s.file_required,
        s.env_prefix@ == "APP"@,
        s.env_separator@ == "__"@,
        s.key@ == "url"@,
        s.default_url@ == "http://[::]:50051"@,
{
    SettingsSources {
        file: "config/default".to_owned(),
        file_required: false,
        env_prefix: "APP".to_owned(),
        env_separator: "__".to_owned(),
        key: "url".to_owned(),
        default_url: "http://[::]:50051".to_owned(),
    }
}

/// Reads one setting: on `Config::builder()`, `set_default(key, default_url)`,
/// then `add_source` of `File::with_name(file).required(file_required)` and
/// of `Environment::with_prefix(env_prefix).separator(env_separator)`, in that
/// order (each later one overrides the earlier), then `build()` reads them and
/// `get_string(key)` gives the setting as text; an error is given as its
/// message. What is read depends on the disk and the environment; nothing is
/// claimed of the result.
#[verifier::external_body]
fn lookup_setting(sources: &SettingsSources) -> Result<String, String> {
    let builder = match Config::builder().set_default(&sources.key, sources.default_url.as_str()) {
        Ok(builder) => builder,
        Err(e) => return Err(format!("{}", e)),
    };
    let file = File::with_name(&sources.file).required(sources.file_required);
    let env = Environment::with_prefix(&sources.env_prefix).separator(&sources.env_separator);
    match builder.add_source(file).add_source(env).build() {
        Ok(config) => match config.get_string(&sources.key) {
            Ok(value) => Ok(value),
            Err(e) => Err(format!("{}", e)),
        },
        Err(e) => Err(format!("{}", e)),
    }
}

/// The service's settings.
#[derive(Debug)]
pub struct Settings {
    /// The address the service listens on.
    pub url: String,
}

impl Settings {
    /// The settings made of a looked-up url, or the error of the lookup.
    pub fn from_lookup(url: Result<String, String>) -> (r: Result<Settings, ConfigError>)
        ensures
            match url {
                Ok(u) => r matches Ok(s) && s.url@ == u@,
                Err(e) => r matches Err(ConfigError::Load(f)) && f@ == e@,
            },
    {
        match url {
            Ok(u) => Ok(Settings { url: u }),
            Err(e) => Err(ConfigError::Load(e)),
        }
    }

    /// Loads the settings from `settings_sources()`: the url is the setting
    /// `url` of the environment variable `APP__URL`, else of the file
    /// `config/default`, else `http://[::]:50051`. What is read depends on the
    /// disk and the environment: on success the settings hold the url that was
    /// read, and every failure (a file that cannot be parsed, a url that is no
    /// text) is a `Load` error.
    pub fn new() -> (r: Result<Settings, ConfigError>)
        ensures
            r matches Err(e) ==> e is Load,
    {
        let sources = settings_sources();
        Settings::from_lookup(lookup_setting(&sources))
    }
}

} // verus!
