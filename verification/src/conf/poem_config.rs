//! The configuration of all environments, and how it is read from a file.

use crate::conf::basic_config::{unrooted, BasicConfig, ConfigPath};
use crate::conf::error::ConfigError;
use crate::conf::value::{parse_document, toml_document, ParseFailure, TomlValue};
use crate::environment::{active_environment, Ambient, Environment};
use vstd::prelude::*;
use vstd::string::*;

verus! {

/// The name of the configuration file, below the directory it is looked for
/// in.
pub const CONFIG_FILENAME: &'static str = "config/Poem.toml";

/// The configurations of the three environments and the environment that
/// is active.
#[derive(Debug)]
pub struct PoemConfig {
    pub active_env: Environment,
    pub development: BasicConfig,
    pub staging: BasicConfig,
    pub production: BasicConfig,
}

/// Where the search for the configuration file goes after one directory
/// was looked at.
#[derive(Debug, PartialEq, Eq)]
pub enum Search {
    /// The file is in this directory: this is its path.
    Found(String),
    /// The file is not here; look in this directory next.
    Continue(String),
    /// The file is not here, and there is no directory above.
    NotFound,
}

/// The index of the first entry of `entries` whose value is not a table.
pub open spec fn first_non_table(entries: Seq<(String, TomlValue)>) -> Option<int>
    decreases entries.len(),
{
    if entries.len() == 0 {
        None
    } else if entries[0].1 !is Table {
        Some(0)
    } else {
        match first_non_table(entries.skip(1)) {
            Some(i) => Some(i + 1),
            None => None,
        }
    }
}

/// The first entry that is not a table is an entry, it is not a table, and
/// every entry before it is one.
pub proof fn lemma_first_non_table(entries: Seq<(String, TomlValue)>)
    ensures
        match first_non_table(entries) {
            Some(i) => {
                &&& 0 <= i < entries.len()
                &&& entries[i].1 !is Table
                &&& forall|j: int| 0 <= j < i ==> (#[trigger] entries[j]).1 is Table
            },
            None => forall|j: int| 0 <= j < entries.len() ==> (#[trigger] entries[j]).1 is Table,
        },
    decreases entries.len(),
{
    if entries.len() > 0 && entries[0].1 is Table {
        lemma_first_non_table(entries.skip(1));
        let rest = entries.skip(1);
        match first_non_table(rest) {
            Some(i) => {
                assert forall|j: int| 0 <= j < i + 1 implies (#[trigger] entries[j]).1 is Table by {
                    if j > 0 {
                        assert(rest[j - 1] == entries[j]);
                    }
                }
            },
            None => {
                assert forall|j: int| 0 <= j < entries.len() implies (#[trigger] entries[
                    j
                ]).1 is Table by {
                    if j > 0 {
                        assert(rest[j - 1] == entries[j]);
                    }
                }
            },
        }
    }
}

impl PoemConfig {
    /// The configuration of `env`.
    pub open spec fn config(&self, env: Environment) -> BasicConfig {
        match env {
            Environment::Development => self.development,
            Environment::Staging => self.staging,
            Environment::Production => self.production,
        }
    }

    /// Whether every environment has the configuration it starts with on
    /// this machine, with no file.
    pub open spec fn is_default(&self) -> bool {
        forall|env: Environment|
            exists|cpus: usize| cpus >= 1 && (#[trigger] self.config(env)).is_default(env, cpus)
    }

    /// Whether every environment has the configuration it starts with when
    /// the file is `file` in directory `root`.
    pub open spec fn is_default_from(&self, file: Seq<char>, root: Seq<char>) -> bool {
        forall|env: Environment|
            exists|cpus: usize|
                cpus >= 1 && (#[trigger] self.config(env)).is_default_from(env, cpus, file, root)
    }

    /// The configuration of `env`.
    pub fn get(&self, env: Environment) -> (config: &BasicConfig)
        ensures
            *config == self.config(env),
    {
        match env {
            Environment::Development => &self.development,
            Environment::Staging => &self.staging,
            Environment::Production => &self.production,
        }
    }

    /// The configuration of `env`, to be changed.
    pub fn get_mut(&mut self, env: Environment) -> (config: &mut BasicConfig)
        ensures
            *config == old(self).config(env),
            final(self).config(env) == *final(config),
            final(self).active_env == old(self).active_env,
            forall|other: Environment|
                other != env ==> final(self).config(other) == old(self).config(other),
    {
        match env {
            Environment::Development => &mut self.development,
            Environment::Staging => &mut self.staging,
            Environment::Production => &mut self.production,
        }
    }

    /// One step of the search for the configuration file. `candidate` is the
    /// path the file would have in the directory looked at, `present` says
    /// whether something is there, and `parent` is the directory above, if
    /// there is one.
    pub fn find(candidate: String, present: bool, parent: Option<String>) -> (step: Search)
        ensures
            step == if present {
                Search::Found(candidate)
            } else {
                match parent {
                    Some(p) => Search::Continue(p),
                    None => Search::NotFound,
                }
            },
    {
        if present {
            Search::Found(candidate)
        } else {
            match parent {
                Some(p) => Search::Continue(p),
                None => Search::NotFound,
            }
        }
    }

    /// The configuration every environment starts with, and the active
    /// environment. With a file, each environment is rooted in the file's
    /// directory, and a file that lies in none is refused; this is looked at
    /// before the active environment is.
    pub fn active_default_from(filename: Option<&ConfigPath>, ambient: &Ambient) -> (r: Result<
        PoemConfig,
        ConfigError,
    >)
        ensures
            match filename {
                Some(file) if file.parent is None => r matches Err(ConfigError::BadFilePath(p, msg))
                    && p@ == file.path@ && msg@ == unrooted(),
                _ => match active_environment(ambient.text(), ambient.debug) {
                    None => r matches Err(ConfigError::BadEnv(s)) && Some(s@) == ambient.text(),
                    Some(env) => {
                        &&& r matches Ok(config)
                        &&& config.active_env == env
                        &&& match filename {
                            Some(file) => config.is_default_from(
                                file.path@,
                                file.parent->Some_0@,
                            ),
                            None => config.is_default(),
                        }
                    },
                },
            },
    {
        let (development, staging, production) = match filename {
            Some(path) => {
                let development = match BasicConfig::default_from(Environment::Development, path) {
                    Ok(c) => c,
                    Err(e) => {
                        return Err(e);
                    },
                };
                let staging = match BasicConfig::default_from(Environment::Staging, path) {
                    Ok(c) => c,
                    Err(e) => {
                        return Err(e);
                    },
                };
                let production = match BasicConfig::default_from(Environment::Production, path) {
                    Ok(c) => c,
                    Err(e) => {
                        return Err(e);
                    },
                };
                (development, staging, production)
            },
            None => (
                BasicConfig::default(Environment::Development),
                BasicConfig::default(Environment::Staging),
                BasicConfig::default(Environment::Production),
            ),
        };
        let active_env = match Environment::active(ambient) {
            Ok(env) => env,
            Err(e) => {
                return Err(e);
            },
        };
        let config = PoemConfig { active_env, development, staging, production };
        proof {
            match filename {
                Some(file) => {
                    let path = file.path@;
                    let root = file.parent->Some_0@;
                    assert forall|env: Environment|
                        exists|cpus: usize|
                            cpus >= 1 && (#[trigger] config.config(env)).is_default_from(
                                env,
                                cpus,
                                path,
                                root,
                            ) by {
                        match env {
                            Environment::Development => {},
                            Environment::Staging => {},
                            Environment::Production => {},
                        }
                    }
                },
                None => {
                    assert forall|env: Environment|
                        exists|cpus: usize|
                            cpus >= 1 && (#[trigger] config.config(env)).is_default(env, cpus) by {
                        match env {
                            Environment::Development => {},
                            Environment::Staging => {},
                            Environment::Production => {},
                        }
                    }
                },
            }
        }
        Ok(config)
    }

    /// The configuration the active environment starts with.
    pub fn active(ambient: &Ambient) -> (r: Result<BasicConfig, ConfigError>)
        ensures
            match active_environment(ambient.text(), ambient.debug) {
                Some(env) => r matches Ok(config) && exists|cpus: usize|
                    cpus >= 1 && config.is_default(env, cpus),
                None => r matches Err(ConfigError::BadEnv(s)) && Some(s@) == ambient.text(),
            },
    {
        match Environment::active(ambient) {
            Ok(env) => Ok(BasicConfig::new(env)),
            Err(e) => Err(e),
        }
    }

    /// What [`PoemConfig::from_document`] returns for a document, its text
    /// and its file, as far as the machine does not decide: the error, or
    /// the active environment of the configuration.
    pub open spec fn outcome(
        doc: Result<TomlValue, ParseFailure>,
        src: Seq<char>,
        file: &ConfigPath,
        ambient: &Ambient,
        r: Result<PoemConfig, ConfigError>,
    ) -> bool {
        match doc {
            Err(failure) => r matches Err(ConfigError::ParseError(s, p, m, at)) && s@ == src && p@
                == file.path@ && m@ == failure.message@ && at == failure.position,
            Ok(TomlValue::Table(entries)) => if file.parent is None {
                r matches Err(ConfigError::BadFilePath(p, msg)) && p@ == file.path@ && msg@
                    == unrooted()
            } else {
                match active_environment(ambient.text(), ambient.debug) {
                    None => r matches Err(ConfigError::BadEnv(s)) && Some(s@) == ambient.text(),
                    Some(env) => match first_non_table(entries@) {
                        Some(i) => {
                            &&& r matches Err(ConfigError::BadType(key, expected, found, p))
                            &&& key@ == entries@[i].0@
                            &&& expected@ == "a table"@
                            &&& found@ == entries@[i].1.kind_name()
                            &&& p matches Some(path)
                            &&& path@ == file.path@
                        },
                        None => r matches Ok(config) && config.active_env == env
                            && config.is_default_from(file.path@, file.parent->Some_0@),
                    },
                }
            },
            Ok(other) => r matches Err(ConfigError::ParseError(s, p, m, at)) && s@ == src && p@
                == file.path@ && m@ == "expected a table, found "@ + other.kind_name() && at
                == Some((1usize, 1usize)),
        }
    }

    /// The configuration that the parsed document `doc` gives, `src` being
    /// its text and `file` its path. A text that is no document, or a
    /// document that is no table, is a parse error. Otherwise every
    /// environment starts with its defaults, rooted in the directory of the
    /// file, and the first entry of the document that is not a table is an
    /// error of type.
    #[verifier::loop_isolation(false)]
    pub fn from_document(
        doc: Result<TomlValue, ParseFailure>,
        src: String,
        file: &ConfigPath,
        ambient: &Ambient,
    ) -> (r: Result<PoemConfig, ConfigError>)
        ensures
            PoemConfig::outcome(doc, src@, file, ambient, r),
    {
        let table: Vec<(String, TomlValue)> = match doc {
            Ok(TomlValue::Table(table)) => table,
            Ok(value) => {
                let mut err = String::from_str("expected a table, found ");
                err.append(value.type_str());
                return Err(ConfigError::ParseError(src, file.path.clone(), err, Some((1, 1))));
            },
            Err(e) => {
                return Err(ConfigError::ParseError(src, file.path.clone(), e.message, e.position));
            },
        };
        let config = match PoemConfig::active_default_from(Some(file), ambient) {
            Ok(c) => c,
            Err(e) => {
                return Err(e);
            },
        };
        let mut i: usize = 0;
        while i < table.len()
            invariant
                i <= table.len(),
                forall|j: int| 0 <= j < i ==> (#[trigger] table@[j]).1 is Table,
            decreases table.len() - i,
        {
            match table[i].1.as_table() {
                Some(_) => {},
                None => {
                    proof {
                        lemma_first_non_table(table@);
                    }
                    return Err(
                        ConfigError::BadType(
                            table[i].0.clone(),
                            "a table",
                            table[i].1.type_str(),
                            Some(file.path.clone()),
                        ),
                    );
                },
            }
            i = i + 1;
        }
        proof {
            lemma_first_non_table(table@);
        }
        Ok(config)
    }

    /// Parses `src`, the text of the file `file`, and gives the
    /// configuration of the document: what [`PoemConfig::from_document`]
    /// makes of what the parser made of the text.
    pub fn parse(src: String, file: &ConfigPath, ambient: &Ambient) -> (r: Result<
        PoemConfig,
        ConfigError,
    >)
        ensures
            PoemConfig::outcome(toml_document(src@), src@, file, ambient, r),
    {
        let doc = parse_document(src.as_str());
        PoemConfig::from_document(doc, src, file, ambient)
    }

    /// The configuration of the file that the search found. `found` is what
    /// the search ended with, and `contents` the text of the file, absent
    /// if the file could not be opened or read.
    pub fn read_config(
        found: Result<ConfigPath, ConfigError>,
        contents: Option<String>,
        ambient: &Ambient,
    ) -> (r: Result<PoemConfig, ConfigError>)
        ensures
            match found {
                Err(e) => r == Err::<PoemConfig, ConfigError>(e),
                Ok(file) => match contents {
                    None => r == Err::<PoemConfig, ConfigError>(ConfigError::IoError),
                    Some(src) => PoemConfig::outcome(toml_document(src@), src@, &file, ambient, r),
                },
            },
    {
        let file = match found {
            Ok(file) => file,
            Err(e) => {
                return Err(e);
            },
        };
        match contents {
            Some(src) => PoemConfig::parse(src, &file, ambient),
            None => Err(ConfigError::IoError),
        }
    }
}

} // verus!
