//! Configuration to test the redirect of rustup.sh

use vstd::prelude::*;
use vstd::string::StringExecFns;

use crate::environment::Environment;

verus! {

/// Configuration to test the redirect of rustup.sh
///
/// The smoke tests ask both Content Delivery Networks for the old installer script. The
/// configuration provides the URLs for the CDNs in the different environments.
#[derive(Debug, PartialEq, Eq, PartialOrd, Ord, Hash)]
pub struct Config {
    /// The URL for the CloudFront CDN
    cloudfront_url: String,
    /// The URL for the Fastly CDN
    fastly_url: String,
}

/// What the configuration says
pub struct ConfigView {
    /// The URL for the CloudFront CDN
    pub cloudfront_url: Seq<char>,
    /// The URL for the Fastly CDN
    pub fastly_url: Seq<char>,
}

impl ConfigView {
    /// The configuration for the given environment
    pub open spec fn for_env(env: Environment) -> ConfigView {
        match env {
            Environment::Staging => ConfigView {
                cloudfront_url: "https://cloudfront-dev-static.rust-lang.org"@,
                fastly_url: "https://fastly-dev-static.rust-lang.org"@,
            },
            Environment::Production => ConfigView {
                cloudfront_url: "https://cloudfront-static.rust-lang.org"@,
                fastly_url: "https://fastly-static.rust-lang.org"@,
            },
        }
    }
}

impl View for Config {
    type V = ConfigView;

    closed spec fn view(&self) -> ConfigView {
        ConfigView {
            cloudfront_url: self.cloudfront_url@,
            fastly_url: self.fastly_url@,
        }
    }
}

impl Clone for Config {
    fn clone(&self) -> (copy: Self)
        ensures
            copy@ == self@,
    {
        Config {
            cloudfront_url: self.cloudfront_url.clone(),
            fastly_url: self.fastly_url.clone(),
        }
    }
}

impl Default for Config {
    fn default() -> (config: Self)
        ensures
            config@ == (ConfigView {
                cloudfront_url: Seq::empty(),
                fastly_url: Seq::empty(),
            }),
    {
        Config {
            cloudfront_url: String::new(),
            fastly_url: String::new(),
        }
    }
}

impl Config {
    /// A configuration with the given values
    pub fn new(cloudfront_url: String, fastly_url: String) -> (config: Self)
        ensures
            config@ == (ConfigView {
                cloudfront_url: cloudfront_url@,
                fastly_url: fastly_url@,
            }),
    {
        Config { cloudfront_url, fastly_url }
    }

    /// Return the configuration for the given environment
    pub fn for_env(env: Environment) -> (config: Self)
        ensures
            config@ == ConfigView::for_env(env),
    {
        match env {
            Environment::Staging => Self {
                cloudfront_url: String::from_str("https://cloudfront-dev-static.rust-lang.org"),
                fastly_url: String::from_str("https://fastly-dev-static.rust-lang.org"),
            },
            Environment::Production => Self {
                cloudfront_url: String::from_str("https://cloudfront-static.rust-lang.org"),
                fastly_url: String::from_str("https://fastly-static.rust-lang.org"),
            },
        }
    }

    /// The URL for the CloudFront CDN
    pub fn cloudfront_url(&self) -> (value: &String)
        ensures
            value@ == self@.cloudfront_url,
    {
        &self.cloudfront_url
    }

    /// The URL for the Fastly CDN
    pub fn fastly_url(&self) -> (value: &String)
        ensures
            value@ == self@.fastly_url,
    {
        &self.fastly_url
    }
}

} // verus!
