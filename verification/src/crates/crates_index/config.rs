//! Configuration to test Index domains

use vstd::prelude::*;
use vstd::string::StringExecFns;

use crate::environment::Environment;

verus! {

/// Configuration to test Index domains
///
/// The configuration provides the URL that the smoke tests request in the different
/// environments.
#[derive(Debug, PartialEq, Eq, PartialOrd, Ord, Hash)]
pub struct Config {
    /// The URL of a crate in the index
    index_url: String,
}

/// What the configuration says
pub struct ConfigView {
    /// The URL of a crate in the index
    pub index_url: Seq<char>,
}

impl ConfigView {
    /// The configuration for the given environment
    pub open spec fn for_env(env: Environment) -> ConfigView {
        match env {
            Environment::Staging => ConfigView {
                index_url: "https://index.staging.crates.io/3/f/foo"@,
            },
            Environment::Production => ConfigView {
                index_url: "https://index.crates.io/3/f/foo"@,
            },
        }
    }
}

impl View for Config {
    type V = ConfigView;

    closed spec fn view(&self) -> ConfigView {
        ConfigView {
            index_url: self.index_url@,
        }
    }
}

impl Clone for Config {
    fn clone(&self) -> (copy: Self)
        ensures
            copy@ == self@,
    {
        Config {
            index_url: self.index_url.clone(),
        }
    }
}

impl Default for Config {
    fn default() -> (config: Self)
        ensures
            config@ == (ConfigView {
                index_url: Seq::empty(),
            }),
    {
        Config {
            index_url: String::new(),
        }
    }
}

impl Config {
    /// A configuration with the given values
    pub fn new(index_url: String) -> (config: Self)
        ensures
            config@ == (ConfigView {
                index_url: index_url@,
            }),
    {
        Config { index_url }
    }

    /// Return the configuration for the given environment
    pub fn for_env(env: Environment) -> (config: Self)
        ensures
            config@ == ConfigView::for_env(env),
    {
        match env {
            Environment::Staging => Self {
                index_url: String::from_str("https://index.staging.crates.io/3/f/foo"),
            },
            Environment::Production => Self {
                index_url: String::from_str("https://index.crates.io/3/f/foo"),
            },
        }
    }

    /// The URL of a crate in the index
    pub fn index_url(&self) -> (value: &String)
        ensures
            value@ == self@.index_url,
    {
        &self.index_url
    }
}

} // verus!
