//! The environment a configuration is for.

use crate::conf::error::ConfigError;
use crate::text::str_eq;
use vstd::prelude::*;
use vstd::string::*;

verus! {

/// The name of the variable that selects the active environment.
pub const CONFIG_ENV: &'static str = "POEM_ENV";

/// One of the three environments a configuration knows.
#[derive(Hash, PartialEq, Eq, Debug, Clone, Copy, Structural)]
pub enum Environment {
    /// The development environment, the default of a debug build.
    Development,
    /// The staging environment.
    Staging,
    /// The production environment, the default of a release build.
    Production,
}

/// What the variable that selects the environment says, and what kind of
/// build is asking.
pub struct Ambient {
    /// The value of the variable [`CONFIG_ENV`], if it is set and is text.
    pub value: Option<String>,
    /// Whether this is a debug build.
    pub debug: bool,
}

/// The environment a name stands for: any of `d`, `dev`, `devel`,
/// `development`; `s`, `stage`, `staging`; `p`, `prod`, `production`.
pub open spec fn named(s: Seq<char>) -> Option<Environment> {
    if s == "d"@ || s == "dev"@ || s == "devel"@ || s == "development"@ {
        Some(Environment::Development)
    } else if s == "s"@ || s == "stage"@ || s == "staging"@ {
        Some(Environment::Staging)
    } else if s == "p"@ || s == "prod"@ || s == "production"@ {
        Some(Environment::Production)
    } else {
        None
    }
}

/// The environment that is active: the one the variable names, or, with no
/// variable, the default of the build.
pub open spec fn active_environment(value: Option<Seq<char>>, debug: bool) -> Option<Environment> {
    match value {
        Some(s) => named(s),
        None => if debug {
            Some(Environment::Development)
        } else {
            Some(Environment::Production)
        },
    }
}

impl Ambient {
    /// The value of the variable as a sequence of characters.
    pub open spec fn text(&self) -> Option<Seq<char>> {
        match self.value {
            Some(s) => Some(s@),
            None => None,
        }
    }
}

impl Environment {
    /// The names of all environments, as shown to a user.
    pub fn valid() -> (names: &'static str)
        ensures
            names@ == "development, staging, production"@,
    {
        "development, staging, production"
    }

    /// The environment that is active for `ambient`. A variable that names
    /// no environment is an error that carries the variable's value.
    pub fn active(ambient: &Ambient) -> (r: Result<Environment, ConfigError>)
        ensures
            match active_environment(ambient.text(), ambient.debug) {
                Some(env) => r == Ok::<Environment, ConfigError>(env),
                None => r matches Err(ConfigError::BadEnv(s)) && Some(s@) == ambient.text(),
            },
    {
        match &ambient.value {
            Some(s) => match Environment::from_str(s.as_str()) {
                Ok(env) => Ok(env),
                Err(_) => Err(ConfigError::BadEnv(s.clone())),
            },
            None => if ambient.debug {
                Ok(Environment::Development)
            } else {
                Ok(Environment::Production)
            },
        }
    }

    /// Whether this is the development environment.
    #[inline]
    pub fn is_dev(self) -> (b: bool)
        ensures
            b == (self == Environment::Development),
    {
        self == Environment::Development
    }

    /// Whether this is the staging environment.
    #[inline]
    pub fn is_stage(self) -> (b: bool)
        ensures
            b == (self == Environment::Staging),
    {
        self == Environment::Staging
    }

    /// Whether this is the production environment.
    #[inline]
    pub fn is_prod(self) -> (b: bool)
        ensures
            b == (self == Environment::Production),
    {
        self == Environment::Production
    }

    /// The environment that `s` names, by its full name or one of its short
    /// forms.
    pub fn from_str(s: &str) -> (r: Result<Environment, ()>)
        ensures
            match named(s@) {
                Some(env) => r == Ok::<Environment, ()>(env),
                None => r is Err,
            },
    {
        if str_eq(s, "d") || str_eq(s, "dev") || str_eq(s, "devel") || str_eq(s, "development") {
            Ok(Environment::Development)
        } else if str_eq(s, "s") || str_eq(s, "stage") || str_eq(s, "staging") {
            Ok(Environment::Staging)
        } else if str_eq(s, "p") || str_eq(s, "prod") || str_eq(s, "production") {
            Ok(Environment::Production)
        } else {
            Err(())
        }
    }

    /// The full name of the environment.
    pub open spec fn name(self) -> Seq<char> {
        match self {
            Environment::Development => "development"@,
            Environment::Staging => "staging"@,
            Environment::Production => "production"@,
        }
    }

    /// The full name of the environment.
    pub fn as_str(&self) -> (name: &'static str)
        ensures
            name@ == self.name(),
    {
        match self {
            Environment::Development => "development",
            Environment::Staging => "staging",
            Environment::Production => "production",
        }
    }
}

/// An environment's full name names that environment.
pub proof fn lemma_name_round_trip(env: Environment)
    ensures
        named(env.name()) == Some(env),
{
    reveal_strlit("d");
    reveal_strlit("dev");
    reveal_strlit("devel");
    reveal_strlit("development");
    reveal_strlit("s");
    reveal_strlit("stage");
    reveal_strlit("staging");
    reveal_strlit("p");
    reveal_strlit("prod");
    reveal_strlit("production");
    match env {
        Environment::Development => {},
        Environment::Staging => {
            assert("staging"@.len() == 7);
        },
        Environment::Production => {
            assert("production"@.len() == 10);
        },
    }
}

} // verus!
