//! Environments that can be tested by the smoke tests

use vstd::prelude::*;

verus! {

/// Environments that can be tested by the smoke tests
///
/// This enum represents the environments that can be tested by the smoke tests. Each environment
/// requires its own configuration and has its own set of expectations, and thus requires its own
/// implementation.
#[derive(Copy, Clone, Eq, PartialEq, Ord, PartialOrd, Hash, Debug, Structural)]
pub enum Environment {
    /// The staging environment
    Staging,
    /// The production environment
    Production,
}

impl Default for Environment {
    fn default() -> (env: Self)
        ensures
            env == Environment::Staging,
    {
        Environment::Staging
    }
}

} // verus!
