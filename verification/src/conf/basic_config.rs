//! The configuration of one environment.

use crate::conf::error::ConfigError;
use crate::conf::value::{lookup, table_get, TomlValue};
use crate::environment::Environment;
use vstd::prelude::*;
use vstd::string::*;

verus! {

/// The path of a configuration file and the directory it lies in, if it
/// lies in one.
#[derive(Debug, PartialEq, Eq)]
pub struct ConfigPath {
    pub path: String,
    pub parent: Option<String>,
}

/// The database of an environment.
#[derive(Debug, PartialEq, Eq)]
pub struct Database {
    pub adapter: String,
    pub db_name: String,
    pub pool: usize,
}

/// The configuration of one environment.
#[derive(Debug)]
pub struct BasicConfig {
    pub environment: Environment,
    pub address: String,
    pub port: String,
    pub database: Option<Database>,
    pub workers: Option<usize>,
    pub config_file_path: Option<String>,
    pub root_path: Option<String>,
}

/// The reason a configuration file without a directory is refused.
pub open spec fn unrooted() -> Seq<char> {
    "Configuration files must be rooted in a directory."@
}

/// Twice the number of cores, where that is a number the machine can hold.
pub open spec fn doubled(cpus: usize) -> Option<usize> {
    if cpus * 2 <= usize::MAX {
        Some((cpus * 2) as usize)
    } else {
        None
    }
}

/// `num_cpus::get`: the number of logical cores available to this process.
/// It depends on the machine; it is at least 1.
#[verifier::external_body]
fn cpu_count() -> (n: usize)
    ensures
        n >= 1,
{
    num_cpus::get()
}

impl Database {
    /// Whether `table` describes a database: an adapter and a name, both
    /// text, and a pool size, a number.
    pub open spec fn described_by(table: &TomlValue) -> bool {
        &&& table.text_field("adapter"@) is Some
        &&& table.text_field("db_name"@) is Some
        &&& table.integer_field("pool"@) is Some
    }

    /// The database that `table` describes.
    pub fn new(table: &TomlValue) -> (db: Database)
        requires
            Database::described_by(table),
        ensures
            Some(db.adapter@) == table.text_field("adapter"@),
            Some(db.db_name@) == table.text_field("db_name"@),
            Some(db.pool) == match table.integer_field("pool"@) {
                Some(n) => Some(n as usize),
                None => None,
            },
    {
        let adapter = table.get_str("adapter").unwrap();
        let db_name = table.get_str("db_name").unwrap();
        let pool: i64 = table.get_integer("pool").unwrap();
        Database {
            adapter: String::from_str(adapter),
            db_name: String::from_str(db_name),
            pool: #[verifier::truncate] (pool as usize),
        }
    }
}

impl BasicConfig {
    /// Whether this is the configuration an environment starts with on a
    /// machine with `cpus` cores: `localhost`, port 8000, no database, two
    /// workers for each core, and no file.
    pub open spec fn is_default(&self, env: Environment, cpus: usize) -> bool {
        &&& self.environment == env
        &&& self.address@ == "localhost"@
        &&& self.port@ == "8000"@
        &&& self.database is None
        &&& self.workers == doubled(cpus)
        &&& self.config_file_path is None
        &&& self.root_path is None
    }

    /// Whether this is the configuration an environment starts with when
    /// its file is `file`, which lies in the directory `root`.
    pub open spec fn is_default_from(
        &self,
        env: Environment,
        cpus: usize,
        file: Seq<char>,
        root: Seq<char>,
    ) -> bool {
        &&& self.environment == env
        &&& self.address@ == "localhost"@
        &&& self.port@ == "8000"@
        &&& self.database is None
        &&& self.workers == doubled(cpus)
        &&& self.config_file_path matches Some(p) && p@ == file
        &&& self.root_path matches Some(p) && p@ == root
    }

    /// Whether `table` holds what the development environment needs: a
    /// table `development` with an address and a port, both text, and a
    /// database.
    pub open spec fn describes_development(table: Seq<(String, TomlValue)>) -> bool {
        &&& lookup(table, "development"@) matches Some(dev)
        &&& dev.text_field("address"@) is Some
        &&& dev.text_field("port"@) is Some
        &&& dev.field("database"@) matches Some(db)
        &&& Database::described_by(&db)
    }

    /// Whether this is the configuration that `table` gives the development
    /// environment.
    pub open spec fn is_development_of(&self, table: Seq<(String, TomlValue)>) -> bool {
        let dev = lookup(table, "development"@)->Some_0;
        let db = dev.field("database"@)->Some_0;
        &&& self.environment == Environment::Development
        &&& Some(self.address@) == dev.text_field("address"@)
        &&& Some(self.port@) == dev.text_field("port"@)
        &&& self.database matches Some(d)
        &&& Some(d.adapter@) == db.text_field("adapter"@)
        &&& Some(d.db_name@) == db.text_field("db_name"@)
        &&& Some(d.pool) == match db.integer_field("pool"@) {
            Some(n) => Some(n as usize),
            None => None,
        }
        &&& self.workers == match dev.integer_field("workers"@) {
            Some(n) => Some(n as usize),
            None => None,
        }
        &&& self.config_file_path is None
        &&& self.root_path is None
    }

    /// The configuration `env` starts with on this machine.
    pub fn new(env: Environment) -> (config: BasicConfig)
        ensures
            exists|cpus: usize| cpus >= 1 && config.is_default(env, cpus),
    {
        BasicConfig::default(env)
    }

    /// The configuration `env` starts with on this machine.
    pub fn default(env: Environment) -> (config: BasicConfig)
        ensures
            exists|cpus: usize| cpus >= 1 && config.is_default(env, cpus),
    {
        let cpus: usize = cpu_count();
        let config = BasicConfig::default_with(env, cpus);
        config
    }

    /// The configuration `env` starts with on a machine with `cpus` cores.
    pub fn default_with(env: Environment, cpus: usize) -> (config: BasicConfig)
        ensures
            config.is_default(env, cpus),
    {
        let default_workers: Option<usize> = cpus.checked_mul(2);
        BasicConfig {
            environment: env,
            address: String::from_str("localhost"),
            port: String::from_str("8000"),
            database: None,
            workers: default_workers,
            config_file_path: None,
            root_path: None,
        }
    }

    /// The configuration that `table` gives `env` on this machine. Only the
    /// development environment is read from the table; the others start
    /// with their defaults.
    pub fn set_config(env: Environment, table: &Vec<(String, TomlValue)>) -> (config: BasicConfig)
        requires
            env == Environment::Development ==> BasicConfig::describes_development(table@),
        ensures
            env == Environment::Development ==> config.is_development_of(table@),
            env != Environment::Development ==> exists|cpus: usize|
                cpus >= 1 && config.is_default(env, cpus),
    {
        let cpus: usize = cpu_count();
        let default_config = BasicConfig::default_with(env, cpus);
        match env {
            Environment::Development => {
                let dev: &TomlValue = table_get(table, "development").unwrap();
                let workers: Option<usize> = match dev.get_integer("workers") {
                    Some(n) => Some(#[verifier::truncate] (n as usize)),
                    None => None,
                };
                BasicConfig {
                    environment: Environment::Development,
                    address: String::from_str(dev.get_str("address").unwrap()),
                    port: String::from_str(dev.get_str("port").unwrap()),
                    database: Some(Database::new(dev.get("database").unwrap())),
                    workers,
                    config_file_path: None,
                    root_path: None,
                }
            },
            Environment::Staging => {
                default_config
            },
            Environment::Production => {
                default_config
            },
        }
    }

    /// Makes `path` the directory the configuration is rooted in.
    pub fn set_root(&mut self, path: &str)
        ensures
            final(self).root_path matches Some(p) && p@ == path@,
            final(self).environment == old(self).environment,
            final(self).address == old(self).address,
            final(self).port == old(self).port,
            final(self).database == old(self).database,
            final(self).workers == old(self).workers,
            final(self).config_file_path == old(self).config_file_path,
    {
        self.root_path = Some(String::from_str(path));
    }

    /// The configuration `env` starts with when its file is `file`: the
    /// defaults, rooted in the directory of the file. A file that lies in
    /// no directory is refused.
    pub fn default_from(env: Environment, file: &ConfigPath) -> (r: Result<BasicConfig, ConfigError>)
        ensures
            match file.parent {
                Some(root) => r matches Ok(config) && exists|cpus: usize|
                    cpus >= 1 && config.is_default_from(env, cpus, file.path@, root@),
                None => r matches Err(ConfigError::BadFilePath(p, msg)) && p@ == file.path@ && msg@
                    == unrooted(),
            },
    {
        let cpus: usize = cpu_count();
        let mut config = BasicConfig::default_with(env, cpus);
        match &file.parent {
            Some(parent) => {
                config.set_root(parent.as_str());
            },
            None => {
                let msg = "Configuration files must be rooted in a directory.";
                return Err(ConfigError::BadFilePath(file.path.clone(), msg));
            },
        }
        config.config_file_path = Some(file.path.clone());
        assert(cpus >= 1 && config.is_default_from(
            env,
            cpus,
            file.path@,
            file.parent->Some_0@,
        ));
        Ok(config)
    }

    /// Whether two configurations name the same address and port and ask
    /// for the same number of workers.
    pub open spec fn same_service(&self, other: &BasicConfig) -> bool {
        self.address@ == other.address@ && self.port@ == other.port@ && self.workers
            == other.workers
    }

    /// Whether two configurations name the same address and port and ask
    /// for the same number of workers.
    pub fn eq(&self, other: &BasicConfig) -> (same: bool)
        ensures
            same == self.same_service(other),
    {
        let workers: bool = match (self.workers, other.workers) {
            (Some(a), Some(b)) => a == b,
            (None, None) => true,
            _ => false,
        };
        self.address == other.address && self.port == other.port && workers
    }
}

} // verus!
