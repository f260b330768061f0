//! The configuration of a server: three environments, each with an address,
//! a port, a database and a number of workers, read from a TOML document.

pub mod basic_config;
pub mod error;
pub mod poem_config;
pub mod value;

pub use self::basic_config::BasicConfig;
pub use self::error::ConfigError;
pub use self::poem_config::PoemConfig;
