use vstd::prelude::*;

verus! {

/// The build profile, which decides the file the settings are read from.
#[derive(Debug, Clone, Copy, PartialEq, Eq, Structural)]
pub enum Profile {
    Development,
    Production,
}

/// The file of settings for `profile`.
pub open spec fn env_file_spec(profile: Profile) -> Seq<char> {
    match profile {
        Profile::Development => ".env.development"@,
        Profile::Production => ".env.production"@,
    }
}

/// Why the settings cannot be had.
#[derive(Debug, Clone)]
pub enum ConfigError {
    /// The file of settings could not be loaded.
    EnvFileNotLoaded,
    /// The setting with this key is missing.
    NotFound(String),
}

/// The message that reports `err`.
pub open spec fn config_error_message(err: ConfigError) -> Seq<char> {
    match err {
        ConfigError::EnvFileNotLoaded => "failed to load .env file"@,
        ConfigError::NotFound(key) => key@ + " not found in .env file"@,
    }
}

impl ConfigError {
    /// The message that reports this error.
    pub fn describe(&self) -> (msg: String)
        ensures
            msg@ == config_error_message(*self),
    {
        match self {
            ConfigError::EnvFileNotLoaded => "failed to load .env file".to_owned(),
            ConfigError::NotFound(key) => {
                let mut msg = key.clone();
                msg.append(" not found in .env file");
                msg
            },
        }
    }
}

/// The file of settings that is loaded under `profile`, overriding what the environment holds.
pub fn env_file_name(profile: Profile) -> (name: String)
    ensures
        name@ == env_file_spec(profile),
{
    match profile {
        Profile::Development => ".env.development".to_owned(),
        Profile::Production => ".env.production".to_owned(),
    }
}

/// Whether the settings are ready, given whether their file was loaded.
pub fn init_env(loaded: bool) -> (res: Result<(), ConfigError>)
    ensures
        loaded ==> res is Ok,
        !loaded ==> res matches Err(ConfigError::EnvFileNotLoaded),
{
    if loaded {
        Ok(())
    } else {
        Err(ConfigError::EnvFileNotLoaded)
    }
}

/// The setting `key`, given what the environment holds for it.
pub fn get_env(key: &str, value: Option<String>) -> (res: Result<String, ConfigError>)
    ensures
        value matches Some(v) ==> res == Ok::<String, ConfigError>(v),
        value is None ==> (res matches Err(ConfigError::NotFound(k)) && k@ == key@),
{
    match value {
        Some(v) => Ok(v),
        None => Err(ConfigError::NotFound(key.to_owned())),
    }
}

} // verus!
