//! Configuration to test crates.io API

use vstd::prelude::*;
use vstd::string::StringExecFns;

use crate::environment::Environment;

verus! {

/// Configuration to test crates.io API
///
/// The configuration provides the URL that the smoke tests request in the different
/// environments.
#[derive(Debug, PartialEq, Eq, PartialOrd, Ord, Hash)]
pub struct Config {
    /// The URL of the endpoint that stands for the health of the API
    api_url: String,
}

/// What the configuration says
pub struct ConfigView {
    /// The URL of the endpoint that stands for the health of the API
    pub api_url: Seq<char>,
}

impl ConfigView {
    /// The configuration for the given environment
    pub open spec fn for_env(env: Environment) -> ConfigView {
        match env {
            Environment::Staging => ConfigView {
                api_url: "https://staging.crates.io/api/v1/summary"@,
            },
            Environment::Production => ConfigView {
                api_url: "https://crates.io/api/v1/summary"@,
            },
        }
    }
}

impl View for Config {
    type V = ConfigView;

    closed spec fn view(&self) -> ConfigView {
        ConfigView {
            api_url: self.api_url@,
        }
    }
}

impl Clone for Config {
    fn clone(&self) -> (copy: Self)
        ensures
            copy@ == self@,
    {
        Config {
            api_url: self.api_url.clone(),
        }
    }
}

impl Default for Config {
    fn default() -> (config: Self)
        ensures
            config@ == (ConfigView {
                api_url: Seq::empty(),
            }),
    {
        Config {
            api_url: String::new(),
        }
    }
}

impl Config {
    /// A configuration with the given values
    pub fn new(api_url: String) -> (config: Self)
        ensures
            config@ == (ConfigView {
                api_url: api_url@,
            }),
    {
        Config { api_url }
    }

    /// Return the configuration for the given environment
    pub fn for_env(env: Environment) -> (config: Self)
        ensures
            config@ == ConfigView::for_env(env),
    {
        match env {
            Environment::Staging => Self {
                api_url: String::from_str("https://staging.crates.io/api/v1/summary"),
            },
            Environment::Production => Self {
                api_url: String::from_str("https://crates.io/api/v1/summary"),
            },
        }
    }

    /// The URL of the endpoint that stands for the health of the API
    pub fn api_url(&self) -> (value: &String)
        ensures
            value@ == self@.api_url,
    {
        &self.api_url
    }
}

} // verus!
