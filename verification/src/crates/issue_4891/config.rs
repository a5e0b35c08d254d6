//! Configuration to test rust-lang/crates.io#4891 on CloudFront

use vstd::prelude::*;

use crate::environment::Environment;

verus! {

/// Configuration to test rust-lang/crates.io#4891 on CloudFront
///
/// The smoke tests try to access a crate with a `+` character in its version. The configuration
/// provides a crate in the different environments that can be used for the tests as well as the
/// URLs for the Content Delivery Networks.
#[derive(Copy, Clone, Debug, PartialEq, Eq, PartialOrd, Ord, Hash)]
pub struct Config {
    /// The name of the crate
    krate: &'static str,
    /// The version with the `+` character
    version: &'static str,
    /// The URL for the CloudFront CDN
    cloudfront_url: &'static str,
    /// The URL for the Fastly CDN
    fastly_url: &'static str,
}

/// What the configuration says
pub struct ConfigView {
    /// The name of the crate
    pub krate: Seq<char>,
    /// The version with the `+` character
    pub version: Seq<char>,
    /// The URL for the CloudFront CDN
    pub cloudfront_url: Seq<char>,
    /// The URL for the Fastly CDN
    pub fastly_url: Seq<char>,
}

impl ConfigView {
    /// The configuration for the given environment
    pub open spec fn for_env(env: Environment) -> ConfigView {
        match env {
            Environment::Staging => ConfigView {
                krate: "rust-cratesio-4891"@,
                version: "0.1.0+1"@,
                cloudfront_url: "https://cloudfront-static.staging.crates.io"@,
                fastly_url: "https://fastly-static.staging.crates.io"@,
            },
            Environment::Production => ConfigView {
                krate: "libgit2-sys"@,
                version: "0.12.25+1.3.0"@,
                cloudfront_url: "https://cloudfront-static.crates.io"@,
                fastly_url: "https://fastly-static.crates.io"@,
            },
        }
    }
}

impl View for Config {
    type V = ConfigView;

    closed spec fn view(&self) -> ConfigView {
        ConfigView {
            krate: self.krate@,
            version: self.version@,
            cloudfront_url: self.cloudfront_url@,
            fastly_url: self.fastly_url@,
        }
    }
}

impl Default for Config {
    fn default() -> (config: Self)
        ensures
            config@ == (ConfigView {
                krate: ""@,
                version: ""@,
                cloudfront_url: ""@,
                fastly_url: ""@,
            }),
    {
        Config {
            krate: "",
            version: "",
            cloudfront_url: "",
            fastly_url: "",
        }
    }
}

impl Config {
    /// A configuration with the given values
    pub fn new(
        krate: &'static str,
        version: &'static str,
        cloudfront_url: &'static str,
        fastly_url: &'static str,
    ) -> (config: Self)
        ensures
            config@ == (ConfigView {
                krate: krate@,
                version: version@,
                cloudfront_url: cloudfront_url@,
                fastly_url: fastly_url@,
            }),
    {
        Config { krate, version, cloudfront_url, fastly_url }
    }

    /// Return the configuration for the given environment
    pub fn for_env(env: Environment) -> (config: Self)
        ensures
            config@ == ConfigView::for_env(env),
    {
        match env {
            Environment::Staging => Self {
                krate: "rust-cratesio-4891",
                version: "0.1.0+1",
                cloudfront_url: "https://cloudfront-static.staging.crates.io",
                fastly_url: "https://fastly-static.staging.crates.io",
            },
            Environment::Production => Self {
                krate: "libgit2-sys",
                version: "0.12.25+1.3.0",
                cloudfront_url: "https://cloudfront-static.crates.io",
                fastly_url: "https://fastly-static.crates.io",
            },
        }
    }

    /// The name of the crate
    pub fn krate(&self) -> (value: &'static str)
        ensures
            value@ == self@.krate,
    {
        self.krate
    }

    /// The version with the `+` character
    pub fn version(&self) -> (value: &'static str)
        ensures
            value@ == self@.version,
    {
        self.version
    }

    /// The URL for the CloudFront CDN
    pub fn cloudfront_url(&self) -> (value: &'static str)
        ensures
            value@ == self@.cloudfront_url,
    {
        self.cloudfront_url
    }

    /// The URL for the Fastly CDN
    pub fn fastly_url(&self) -> (value: &'static str)
        ensures
            value@ == self@.fastly_url,
    {
        self.fastly_url
    }
}

} // verus!
