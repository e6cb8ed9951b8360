//! A chat service that runs in your shell and takes the robot's configuration.

use vstd::prelude::*;

use crate::config::Config;

verus! {

/// A chat service that runs in your shell.
#[derive(Clone, Debug)]
pub struct Shell {
    config: Config,
}

impl Shell {
    /// The robot's configuration.
    pub closed spec fn spec_config(&self) -> Config {
        self.config
    }

    /// Creates a new `Shell` with the robot's configuration.
    pub fn new(config: Config) -> (r: Self)
        ensures
            r.spec_config() == config,
    {
        Shell { config }
    }

    /// The robot's configuration.
    pub fn config(&self) -> (r: &Config)
        ensures
            *r == self.spec_config(),
    {
        &self.config
    }
}

} // verus!
