//! Utility functions for working with crates

use vstd::prelude::*;
use vstd::string::StringExecFns;

verus! {

/// The URL of a crate: below `base_url`, in the directory of the crate, the file named after the
/// crate and its version
pub open spec fn crate_address(base_url: Seq<char>, krate: Seq<char>, version: Seq<char>) -> Seq<
    char,
> {
    base_url + "/crates/"@ + krate + "/"@ + krate + "-"@ + version + ".crate"@
}

/// Construct the URL for a crate
///
/// This function constructs the URL for a crate on crates.io. The URL is constructed using the base
/// URL for the CDN, the name of the crate, and the version of the crate.
pub fn crate_url(base_url: &str, krate: &str, version: &str) -> (url: String)
    ensures
        url@ == crate_address(base_url@, krate@, version@),
{
    let mut url = String::from_str(base_url);
    url.append("/crates/");
    url.append(krate);
    url.append("/");
    url.append(krate);
    url.append("-");
    url.append(version);
    url.append(".crate");
    url
}

} // verus!
