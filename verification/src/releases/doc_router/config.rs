//! Configuration to test the router of the documentation

use vstd::prelude::*;
use vstd::string::StringExecFns;

use crate::environment::Environment;

verus! {

/// Configuration to test the router of the documentation
///
/// The smoke tests ask the Content Delivery Network for pages of the documentation. The
/// configuration provides the URL of the CDN in the different environments.
#[derive(Debug, PartialEq, Eq, PartialOrd, Ord, Hash)]
pub struct Config {
    /// The URL for the CloudFront CDN
    cloudfront_url: String,
}

/// What the configuration says
pub struct ConfigView {
    /// The URL for the CloudFront CDN
    pub cloudfront_url: Seq<char>,
}

impl ConfigView {
    /// The configuration for the given environment
    pub open spec fn for_env(env: Environment) -> ConfigView {
        match env {
            Environment::Staging => ConfigView {
                cloudfront_url: "https://dev-doc.rust-lang.org"@,
            },
            Environment::Production => ConfigView {
                cloudfront_url: "https://doc.rust-lang.org"@,
            },
        }
    }
}

impl View for Config {
    type V = ConfigView;

    closed spec fn view(&self) -> ConfigView {
        ConfigView {
            cloudfront_url: self.cloudfront_url@,
        }
    }
}

impl Clone for Config {
    fn clone(&self) -> (copy: Self)
        ensures
            copy@ == self@,
    {
        Config {
            cloudfront_url: self.cloudfront_url.clone(),
        }
    }
}

impl Default for Config {
    fn default() -> (config: Self)
        ensures
            config@ == (ConfigView {
                cloudfront_url: Seq::empty(),
            }),
    {
        Config {
            cloudfront_url: String::new(),
        }
    }
}

impl Config {
    /// A configuration with the given values
    pub fn new(cloudfront_url: String) -> (config: Self)
        ensures
            config@ == (ConfigView {
                cloudfront_url: cloudfront_url@,
            }),
    {
        Config { cloudfront_url }
    }

    /// Return the configuration for the given environment
    pub fn for_env(env: Environment) -> (config: Self)
        ensures
            config@ == ConfigView::for_env(env),
    {
        match env {
            Environment::Staging => Self {
                cloudfront_url: String::from_str("https://dev-doc.rust-lang.org"),
            },
            Environment::Production => Self {
                cloudfront_url: String::from_str("https://doc.rust-lang.org"),
            },
        }
    }

    /// The URL for the CloudFront CDN
    pub fn cloudfront_url(&self) -> (value: &String)
        ensures
            value@ == self@.cloudfront_url,
    {
        &self.cloudfront_url
    }
}

} // verus!
