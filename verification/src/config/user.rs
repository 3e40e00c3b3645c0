//! User-level configuration (`~/.config/rafn/config.toml`).
use vstd::prelude::*;

use crate::text::{eq_str, owned};

verus! {

/// The compiled-in cloud endpoint.
pub open spec fn spec_default_api_url() -> Seq<char> {
    "https://api.rqfn.dev"@
}

/// The compiled-in cloud endpoint.
pub fn default_api_url() -> (r: String)
    ensures
        r@ == spec_default_api_url(),
{
    owned("https://api.rqfn.dev")
}

/// `[cloud]` of the user configuration.
#[derive(Debug, PartialEq, Eq)]
pub struct UserCloudConfig {
    pub api_url: String,
}

impl Default for UserCloudConfig {
    fn default() -> (r: Self)
        ensures
            r.api_url@ == spec_default_api_url(),
    {
        UserCloudConfig { api_url: default_api_url() }
    }
}

/// The user-level configuration.
#[derive(Debug, PartialEq, Eq)]
pub struct Config {
    pub cloud: UserCloudConfig,
}

impl Default for Config {
    fn default() -> (r: Self)
        ensures
            r.cloud.api_url@ == spec_default_api_url(),
    {
        Config { cloud: UserCloudConfig::default() }
    }
}

/// Why a configuration operation failed.
#[derive(Debug)]
pub enum ConfigError {
    /// `set` was given a key that does not exist.
    UnknownKey(String),
    /// `init_at` found a configuration file already at the path.
    AlreadyExists(String),
}

/// The only configuration key.
pub open spec fn spec_api_url_key() -> Seq<char> {
    "cloud.api_url"@
}

impl Config {
    /// The value a key reads: `cloud.api_url` is the only key.
    pub open spec fn spec_get(self, key: Seq<char>) -> Option<Seq<char>> {
        if key == spec_api_url_key() {
            Some(self.cloud.api_url@)
        } else {
            None
        }
    }

    /// Resolves the user configuration from its layers: a value from the
    /// environment (`RAFN_CLOUD__API_URL`) over one from the configuration
    /// file over the compiled-in default.
    pub fn load(file_api_url: Option<String>, env_api_url: Option<String>) -> (c: Config)
        ensures
            c.cloud.api_url@ == (match env_api_url {
                Some(e) => e@,
                None => match file_api_url {
                    Some(f) => f@,
                    None => spec_default_api_url(),
                },
            }),
    {
        let api_url = match env_api_url {
            Some(e) => e,
            None => match file_api_url {
                Some(f) => f,
                None => default_api_url(),
            },
        };
        Config { cloud: UserCloudConfig { api_url } }
    }

    /// The default configuration to write at `path`, refused when a file
    /// already exists there.
    pub fn init_at(path: &str, exists: bool) -> (r: Result<Config, ConfigError>)
        ensures
            exists ==> (r matches Err(ConfigError::AlreadyExists(p)) && p@ == path@),
            !exists ==> (r matches Ok(c) && c.cloud.api_url@ == spec_default_api_url()),
    {
        if exists {
            Err(ConfigError::AlreadyExists(owned(path)))
        } else {
            Ok(Config::default())
        }
    }

    /// The value of `key`, if it is a known key.
    pub fn get(&self, key: &str) -> (r: Option<String>)
        ensures
            match r {
                Some(v) => self.spec_get(key@) == Some(v@),
                None => self.spec_get(key@) is None,
            },
    {
        if eq_str(key, "cloud.api_url") {
            Some(self.cloud.api_url.clone())
        } else {
            None
        }
    }

    /// Sets `key` to `value`; unknown keys are an error and leave the
    /// configuration unchanged.
    pub fn set(&mut self, key: &str, value: &str) -> (r: Result<(), ConfigError>)
        ensures
            key@ == spec_api_url_key() ==> r is Ok && final(self).cloud.api_url@ == value@,
            key@ != spec_api_url_key() ==> (r matches Err(ConfigError::UnknownKey(k)) && k@
                == key@) && *final(self) == *old(self),
    {
        if eq_str(key, "cloud.api_url") {
            self.cloud.api_url = owned(value);
            Ok(())
        } else {
            Err(ConfigError::UnknownKey(owned(key)))
        }
    }
}

/// Reading a key back after setting it gives the value that was set: a
/// configuration in the state `set(cloud.api_url, value)` leaves it in
/// reads `value` under that key, and still reads nothing under any other.
pub proof fn lemma_set_then_get(after: Config, value: Seq<char>, other: Seq<char>)
    requires
        after.cloud.api_url@ == value,
        other != spec_api_url_key(),
    ensures
        after.spec_get(spec_api_url_key()) == Some(value),
        after.spec_get(other) is None,
{
}

} // verus!
