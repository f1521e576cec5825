//! What a run is configured with.

use vstd::prelude::*;

verus! {

/// The configuration of the exporter: the bearer token that every request
/// to the service carries. It is made once and handed to a run by
/// reference.
#[derive(Debug, PartialEq, Eq)]
pub struct Config {
    pub github_token: String,
}

impl View for Config {
    type V = Seq<char>;

    open spec fn view(&self) -> Seq<char> {
        self.github_token@
    }
}

impl Config {
    /// The configuration that holds `github_token` as it is.
    pub fn new(github_token: String) -> (config: Config)
        ensures
            config@ == github_token@,
    {
        Config { github_token }
    }
}

} // verus!
