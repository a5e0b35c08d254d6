//! Configuration to test listing the files of a release

use vstd::prelude::*;
use vstd::string::StringExecFns;

use crate::environment::Environment;

verus! {

/// Configuration to test listing the files of a release
///
/// The smoke tests ask both Content Delivery Networks for the index of a release. The
/// configuration provides a release in the different environments as well as the URLs for the
/// CDNs.
#[derive(Debug, PartialEq, Eq, PartialOrd, Ord, Hash)]
pub struct Config {
    /// The URL for the CloudFront CDN
    cloudfront_url: String,
    /// The URL for the Fastly CDN
    fastly_url: String,
    /// The release whose files are listed
    release: String,
}

/// What the configuration says
pub struct ConfigView {
    /// The URL for the CloudFront CDN
    pub cloudfront_url: Seq<char>,
    /// The URL for the Fastly CDN
    pub fastly_url: Seq<char>,
    /// The release whose files are listed
    pub release: Seq<char>,
}

impl ConfigView {
    /// The configuration for the given environment
    pub open spec fn for_env(env: Environment) -> ConfigView {
        match env {
            Environment::Staging => ConfigView {
                cloudfront_url: "https://cloudfront-dev-static.rust-lang.org"@,
                fastly_url: "https://fastly-dev-static.rust-lang.org"@,
                release: "2024-09-03"@,
            },
            Environment::Production => ConfigView {
                cloudfront_url: "https://cloudfront-static.rust-lang.org"@,
                fastly_url: "https://fastly-static.rust-lang.org"@,
                release: "2024-09-11"@,
            },
        }
    }
}

impl View for Config {
    type V = ConfigView;

    closed spec fn view(&self) -> ConfigView {
        ConfigView {
            cloudfront_url: self.cloudfront_url@,
            fastly_url: self.fastly_url@,
            release: self.release@,
        }
    }
}

impl Clone for Config {
    fn clone(&self) -> (copy: Self)
        ensures
            copy@ == self@,
    {
        Config {
            cloudfront_url: self.cloudfront_url.clone(),
            fastly_url: self.fastly_url.clone(),
            release: self.release.clone(),
        }
    }
}

impl Default for Config {
    fn default() -> (config: Self)
        ensures
            config@ == (ConfigView {
                cloudfront_url: Seq::empty(),
                fastly_url: Seq::empty(),
                release: Seq::empty(),
            }),
    {
        Config {
            cloudfront_url: String::new(),
            fastly_url: String::new(),
            release: String::new(),
        }
    }
}

impl Config {
    /// A configuration with the given values
    pub fn new(cloudfront_url: String, fastly_url: String, release: String) -> (config: Self)
        ensures
            config@ == (ConfigView {
                cloudfront_url: cloudfront_url@,
                fastly_url: fastly_url@,
                release: release@,
            }),
    {
        Config { cloudfront_url, fastly_url, release }
    }

    /// Return the configuration for the given environment
    pub fn for_env(env: Environment) -> (config: Self)
        ensures
            config@ == ConfigView::for_env(env),
    {
        match env {
            Environment::Staging => Self {
                cloudfront_url: String::from_str("https://cloudfront-dev-static.rust-lang.org"),
                fastly_url: String::from_str("https://fastly-dev-static.rust-lang.org"),
                release: String::from_str("2024-09-03"),
            },
            Environment::Production => Self {
                cloudfront_url: String::from_str("https://cloudfront-static.rust-lang.org"),
                fastly_url: String::from_str("https://fastly-static.rust-lang.org"),
                release: String::from_str("2024-09-11"),
            },
        }
    }

    /// The URL for the CloudFront CDN
    pub fn cloudfront_url(&self) -> (value: &String)
        ensures
            value@ == self@.cloudfront_url,
    {
        &self.cloudfront_url
    }

    /// The URL for the Fastly CDN
    pub fn fastly_url(&self) -> (value: &String)
        ensures
            value@ == self@.fastly_url,
    {
        &self.fastly_url
    }

    /// The release whose files are listed
    pub fn release(&self) -> (value: &String)
        ensures
            value@ == self@.release,
    {
        &self.release
    }
}

} // verus!
