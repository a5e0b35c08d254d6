//! Configuration to test rust-lang/crates.io#6164

use vstd::prelude::*;
use vstd::string::StringExecFns;

use crate::environment::Environment;

verus! {

/// Configuration to test rust-lang/crates.io#6164
///
/// The smoke tests request a crate from the different Content Delivery Networks and look at the
/// CORS headers of the response. The configuration provides a crate in the different
/// environments as well as the URLs for the CDNs.
#[derive(Debug, PartialEq, Eq, PartialOrd, Ord, Hash)]
pub struct Config {
    /// The name of the crate
    krate: String,
    /// The version of the crate
    version: String,
    /// The URL for the CloudFront CDN
    cloudfront_url: String,
    /// The URL for the Fastly CDN
    fastly_url: String,
}

/// What the configuration says
pub struct ConfigView {
    /// The name of the crate
    pub krate: Seq<char>,
    /// The version of the crate
    pub version: Seq<char>,
    /// The URL for the CloudFront CDN
    pub cloudfront_url: Seq<char>,
    /// The URL for the Fastly CDN
    pub fastly_url: Seq<char>,
}

impl ConfigView {
    /// The configuration for the given environment
    pub open spec fn for_env(env: Environment) -> ConfigView {
        match env {
            Environment::Staging => ConfigView {
                krate: "crossbeam"@,
                version: "0.2.10"@,
                cloudfront_url: "https://cloudfront-static.staging.crates.io"@,
                fastly_url: "https://fastly-static.staging.crates.io"@,
            },
            Environment::Production => ConfigView {
                krate: "axum"@,
                version: "0.6.10"@,
                cloudfront_url: "https://cloudfront-static.crates.io"@,
                fastly_url: "https://fastly-static.crates.io"@,
            },
        }
    }
}

impl View for Config {
    type V = ConfigView;

    closed spec fn view(&self) -> ConfigView {
        ConfigView {
            krate: self.krate@,
            version: self.version@,
            cloudfront_url: self.cloudfront_url@,
            fastly_url: self.fastly_url@,
        }
    }
}

impl Clone for Config {
    fn clone(&self) -> (copy: Self)
        ensures
            copy@ == self@,
    {
        Config {
            krate: self.krate.clone(),
            version: self.version.clone(),
            cloudfront_url: self.cloudfront_url.clone(),
            fastly_url: self.fastly_url.clone(),
        }
    }
}

impl Default for Config {
    fn default() -> (config: Self)
        ensures
            config@ == (ConfigView {
                krate: Seq::empty(),
                version: Seq::empty(),
                cloudfront_url: Seq::empty(),
                fastly_url: Seq::empty(),
            }),
    {
        Config {
            krate: String::new(),
            version: String::new(),
            cloudfront_url: String::new(),
            fastly_url: String::new(),
        }
    }
}

impl Config {
    /// A configuration with the given values
    pub fn new(
        krate: String,
        version: String,
        cloudfront_url: String,
        fastly_url: String,
    ) -> (config: Self)
        ensures
            config@ == (ConfigView {
                krate: krate@,
                version: version@,
                cloudfront_url: cloudfront_url@,
                fastly_url: fastly_url@,
            }),
    {
        Config { krate, version, cloudfront_url, fastly_url }
    }

    /// Return the configuration for the given environment
    pub fn for_env(env: Environment) -> (config: Self)
        ensures
            config@ == ConfigView::for_env(env),
    {
        match env {
            Environment::Staging => Self {
                krate: String::from_str("crossbeam"),
                version: String::from_str("0.2.10"),
                cloudfront_url: String::from_str("https://cloudfront-static.staging.crates.io"),
                fastly_url: String::from_str("https://fastly-static.staging.crates.io"),
            },
            Environment::Production => Self {
                krate: String::from_str("axum"),
                version: String::from_str("0.6.10"),
                cloudfront_url: String::from_str("https://cloudfront-static.crates.io"),
                fastly_url: String::from_str("https://fastly-static.crates.io"),
            },
        }
    }

    /// The name of the crate
    pub fn krate(&self) -> (value: &String)
        ensures
            value@ == self@.krate,
    {
        &self.krate
    }

    /// The version of the crate
    pub fn version(&self) -> (value: &String)
        ensures
            value@ == self@.version,
    {
        &self.version
    }

    /// The URL for the CloudFront CDN
    pub fn cloudfront_url(&self) -> (value: &String)
        ensures
            value@ == self@.cloudfront_url,
    {
        &self.cloudfront_url
    }

    /// The URL for the Fastly CDN
    pub fn fastly_url(&self) -> (value: &String)
        ensures
            value@ == self@.fastly_url,
    {
        &self.fastly_url
    }
}

} // verus!
