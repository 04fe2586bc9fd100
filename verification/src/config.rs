//! The configuration of the monitor: a port and a flag for HTTPS.
//!
//! Both come as optional texts, each the value of a variable that may not be
//! set. A missing text takes the default; a text that is no number between 0
//! and 65535 is an error.

use crate::decimal::{parse_u16, parsed_u16};
use vstd::prelude::*;

verus! {

/// The main server's port where none is configured.
pub const DEFAULT_PORT: u16 = 80;

/// The configuration of the monitor.
#[derive(Clone, Copy, Debug, PartialEq, Eq, Structural)]
pub struct Config {
    /// The main server's port.
    pub port: u16,
    /// Whether the main server speaks TLS, with plain HTTP redirected to it.
    pub https: bool,
}

/// Why a configuration was refused.
#[derive(Clone, Copy, Debug, PartialEq, Eq, Structural)]
pub enum ConfigError {
    /// The port is no number between 0 and 65535.
    InvalidPort,
    /// The HTTPS flag is no number between 0 and 65535.
    InvalidHttpsFlag,
}

/// What an optional text holds.
pub open spec fn text_of(var: Option<&str>) -> Option<Seq<char>> {
    match var {
        Some(text) => Some(text@),
        None => None,
    }
}

/// The port that a variable stands for: the default where it is missing.
pub open spec fn port_of(var: Option<Seq<char>>) -> Result<u16, ConfigError> {
    match var {
        None => Ok(DEFAULT_PORT),
        Some(text) => match parsed_u16(text) {
            Some(port) => Ok(port),
            None => Err(ConfigError::InvalidPort),
        },
    }
}

/// The flag that a variable stands for: off where it is missing or zero, on
/// for any other number.
pub open spec fn https_of(var: Option<Seq<char>>) -> Result<bool, ConfigError> {
    match var {
        None => Ok(false),
        Some(text) => match parsed_u16(text) {
            Some(flag) => Ok(flag > 0),
            None => Err(ConfigError::InvalidHttpsFlag),
        },
    }
}

/// The configuration that two variables stand for. Where both are invalid the
/// flag is the one named.
pub open spec fn config_of(port: Option<Seq<char>>, https: Option<Seq<char>>) -> Result<
    Config,
    ConfigError,
> {
    match (https_of(https), port_of(port)) {
        (Err(error), _) => Err(error),
        (Ok(_), Err(error)) => Err(error),
        (Ok(https), Ok(port)) => Ok(Config { port, https }),
    }
}

/// Reads the main server's port from its variable.
pub fn parse_port(var: Option<&str>) -> (out: Result<u16, ConfigError>)
    ensures
        out == port_of(text_of(var)),
{
    match var {
        None => Ok(DEFAULT_PORT),
        Some(text) => match parse_u16(text) {
            Some(port) => Ok(port),
            None => Err(ConfigError::InvalidPort),
        },
    }
}

/// Reads the HTTPS flag from its variable.
pub fn parse_https(var: Option<&str>) -> (out: Result<bool, ConfigError>)
    ensures
        out == https_of(text_of(var)),
{
    match var {
        None => Ok(false),
        Some(text) => match parse_u16(text) {
            Some(flag) => Ok(flag > 0),
            None => Err(ConfigError::InvalidHttpsFlag),
        },
    }
}

impl Config {
    /// The configuration that the variables for the port and for the HTTPS
    /// flag stand for.
    pub fn from_vars(port: Option<&str>, https: Option<&str>) -> (out: Result<Config, ConfigError>)
        ensures
            out == config_of(text_of(port), text_of(https)),
    {
        match parse_https(https) {
            Err(error) => Err(error),
            Ok(https) => match parse_port(port) {
                Err(error) => Err(error),
                Ok(port) => Ok(Config { port, https }),
            },
        }
    }
}

/// With neither variable set the monitor serves plain HTTP on the default
/// port.
pub proof fn lemma_default_config()
    ensures
        config_of(None, None) == Ok::<Config, ConfigError>(
            Config { port: DEFAULT_PORT, https: false },
        ),
{
}

} // verus!
