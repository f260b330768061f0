//! What can go wrong while a configuration is found, read and understood.

use crate::text::debug_quoted;
use vstd::prelude::*;
use vstd::string::*;

verus! {

/// An error of the configuration.
#[derive(Debug, PartialEq, Eq)]
pub enum ConfigError {
    /// The configuration file was not found.
    NotFound,
    /// The configuration file could not be read.
    IoError,
    /// The path of the configuration file is not valid; with the path and
    /// the reason.
    BadFilePath(String, &'static str),
    /// The variable that selects the environment names none; with its value.
    BadEnv(String),
    /// A table is named after no environment; with the name and the path of
    /// the file.
    BadEntry(String, String),
    /// A key has a value of the wrong type; with the key, the type expected,
    /// the type found and the path of the file.
    BadType(String, &'static str, &'static str, Option<String>),
    /// The file is not a TOML document; with its text, its path, the
    /// parser's message and the line and column of the error.
    ParseError(String, String, String, Option<(usize, usize)>),
}

impl ConfigError {
    /// The short description of the error.
    pub open spec fn summary(&self) -> Seq<char> {
        match self {
            ConfigError::NotFound => "config file was not found"@,
            ConfigError::IoError => "there was an I/O error while reading the config file"@,
            ConfigError::BadFilePath(..) => "the config file path is invalid"@,
            ConfigError::BadEnv(..) => "the environment specified in `ROCKET_ENV` is invalid"@,
            ConfigError::BadEntry(..) => "an environment specified as `[environment]` is invalid"@,
            ConfigError::BadType(..) => "a key was specified with a value of the wrong type"@,
            ConfigError::ParseError(..) => "the config file contains invalid TOML"@,
        }
    }

    /// The message of the error, with the values it carries.
    pub open spec fn text(&self) -> Seq<char> {
        match self {
            ConfigError::NotFound => "config file was not found"@,
            ConfigError::IoError => "I/O error while reading the config file"@,
            ConfigError::BadFilePath(p, _) => crate::text::debug_text(p@)
                + " is not a valid config path"@,
            ConfigError::BadEnv(e) => crate::text::debug_text(e@)
                + " is not a valid `ROCKET_ENV` value"@,
            ConfigError::BadEntry(e, _) => crate::text::debug_text(e@)
                + " is not a valid `[environment]` entry"@,
            ConfigError::BadType(n, e, a, _) => "type mismatch for '"@ + n@ + "'. expected "@ + e@
                + ", found "@ + a@,
            ConfigError::ParseError(..) => "the config file contains invalid TOML"@,
        }
    }

    /// The short description of the error.
    pub fn description(&self) -> (s: &'static str)
        ensures
            s@ == self.summary(),
    {
        match self {
            ConfigError::NotFound => "config file was not found",
            ConfigError::IoError => "there was an I/O error while reading the config file",
            ConfigError::BadFilePath(..) => "the config file path is invalid",
            ConfigError::BadEnv(..) => "the environment specified in `ROCKET_ENV` is invalid",
            ConfigError::BadEntry(..) => "an environment specified as `[environment]` is invalid",
            ConfigError::BadType(..) => "a key was specified with a value of the wrong type",
            ConfigError::ParseError(..) => "the config file contains invalid TOML",
        }
    }

    /// The message of the error, with the values it carries.
    pub fn message(&self) -> (s: String)
        ensures
            s@ == self.text(),
    {
        match self {
            ConfigError::NotFound => String::from_str("config file was not found"),
            ConfigError::IoError => String::from_str("I/O error while reading the config file"),
            ConfigError::BadFilePath(p, _) => debug_quoted(p.as_str()).concat(
                " is not a valid config path",
            ),
            ConfigError::BadEnv(e) => debug_quoted(e.as_str()).concat(
                " is not a valid `ROCKET_ENV` value",
            ),
            ConfigError::BadEntry(e, _) => debug_quoted(e.as_str()).concat(
                " is not a valid `[environment]` entry",
            ),
            ConfigError::BadType(n, e, a, _) => {
                let mut s = String::from_str("type mismatch for '");
                s.append(n.as_str());
                s.append("'. expected ");
                s.append(e);
                s.append(", found ");
                s.append(a);
                s
            },
            ConfigError::ParseError(..) => String::from_str("the config file contains invalid TOML"),
        }
    }
}

} // verus!
