//! `config`: manage the user configuration.
use vstd::prelude::*;

use crate::config::Config;
use crate::text::{owned, push_all};

verus! {

/// Manage the user configuration.
#[derive(Debug)]
pub struct ConfigCommand {
    pub command: ConfigSubcommand,
}

/// The configuration actions.
#[derive(Debug)]
pub enum ConfigSubcommand {
    /// Write the default configuration file.
    Init,
    /// Show the current configuration.
    Show,
    /// Set a key.
    SetKey { key: String, value: String },
    /// Print a key's value.
    Get { key: String },
}

/// The line `config get` prints: the value, or `(not set)`.
pub fn get_line(config: &Config, key: &str) -> (r: String)
    ensures
        r@ == match config.spec_get(key@) {
            Some(v) => v,
            None => "(not set)"@,
        },
{
    match config.get(key) {
        Some(v) => v,
        None => owned("(not set)"),
    }
}

/// The line `config set` prints once the value is saved: `Set key = value`.
pub fn set_line(key: &str, value: &str) -> (r: String)
    ensures
        r@ == "Set "@ + key@ + " = "@ + value@,
{
    let mut r = owned("Set ");
    push_all(&mut r, key);
    push_all(&mut r, " = ");
    push_all(&mut r, value);
    r
}

} // verus!
