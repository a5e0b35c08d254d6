//! Command-line interface to run the smoke tests
//!
//! This module holds what the command line says. See the `Cli` struct.

use vstd::prelude::*;

use crate::environment::Environment;

verus! {

/// Smoke Tests for Infrastructure
///
/// This command-line application can be used to run smoke tests against our infrastructure. The
/// tests confirm that the infrastructure is working as expected and that no regressions have been
/// introduced.
#[derive(Copy, Clone, Eq, PartialEq, Ord, PartialOrd, Hash, Debug, Structural)]
pub struct Cli {
    /// The environment to run the smoke tests against
    env: Environment,
}

impl View for Cli {
    type V = Environment;

    closed spec fn view(&self) -> Environment {
        self.env
    }
}

impl Default for Cli {
    fn default() -> (cli: Self)
        ensures
            cli@ == Environment::Staging,
    {
        Cli { env: Environment::Staging }
    }
}

impl Cli {
    /// The command line that asks for the environment `env`
    pub fn new(env: Environment) -> (cli: Self)
        ensures
            cli@ == env,
    {
        Cli { env }
    }

    /// The environment to run the smoke tests against
    pub fn env(&self) -> (env: Environment)
        ensures
            env == self@,
    {
        self.env
    }
}

} // verus!
