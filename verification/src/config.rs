//! Service configuration: its failures and the reading of its numeric
//! settings (token lifetimes, the lifetime of presigned URLs).
use vstd::prelude::*;
use vstd::string::*;

use crate::text::{parse_i32, parse_i32_spec, parse_i64, parse_i64_spec};

verus! {

/// Failure to read the configuration: from the `.env` file, from the
/// process environment, or while reading a number.
#[derive(Debug, Clone, Copy, PartialEq, Eq, Structural)]
pub enum ConfigError {
    DevelopmentConfigError,
    DeploymentConfigError,
    ParsingError,
}

impl ConfigError {
    /// The message of the error.
    pub open spec fn message(self) -> Seq<char> {
        match self {
            ConfigError::DevelopmentConfigError => "An error occurred in the .env file"@,
            ConfigError::DeploymentConfigError => "An error occured in the system environment variable"@,
            ConfigError::ParsingError => "Something went wrong when parsing an integer"@,
        }
    }

    /// The message of the error.
    pub fn to_string(&self) -> (r: String)
        ensures
            r@ == self.message(),
    {
        match self {
            ConfigError::DevelopmentConfigError => String::from_str("An error occurred in the .env file"),
            ConfigError::DeploymentConfigError => String::from_str(
                "An error occured in the system environment variable",
            ),
            ConfigError::ParsingError => String::from_str("Something went wrong when parsing an integer"),
        }
    }
}

/// Reads a 64-bit setting (a lifetime in seconds); text that is not a
/// decimal `i64` is a parsing error.
pub fn parse_i64_setting(text: &str) -> (r: Result<i64, ConfigError>)
    ensures
        match parse_i64_spec(text@) {
            Some(v) => r == Ok::<i64, ConfigError>(v as i64),
            None => r == Err::<i64, ConfigError>(ConfigError::ParsingError),
        },
{
    match parse_i64(text) {
        Some(v) => Ok(v),
        None => Err(ConfigError::ParsingError),
    }
}

/// Reads a 32-bit setting; text that is not a decimal `i32` is a parsing
/// error.
pub fn parse_i32_setting(text: &str) -> (r: Result<i32, ConfigError>)
    ensures
        match parse_i32_spec(text@) {
            Some(v) => r == Ok::<i32, ConfigError>(v as i32),
            None => r == Err::<i32, ConfigError>(ConfigError::ParsingError),
        },
{
    match parse_i32(text) {
        Some(v) => Ok(v),
        None => Err(ConfigError::ParsingError),
    }
}

} // verus!
