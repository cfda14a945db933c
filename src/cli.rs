use vstd::prelude::*;

verus! {

/// Where the program looks for its configuration unless told otherwise.
pub const DEFAULT_CONFIG_PATH: &'static str = "config.yaml";

/// Command-line settings: the configuration file to read.
pub struct Cli {
    pub config: String,
}

impl Cli {
    /// Settings from the given configuration path, or the default path.
    pub fn new(config: Option<String>) -> (r: Cli)
        ensures
            r.config@ == match config {
                Some(c) => c@,
                None => DEFAULT_CONFIG_PATH@,
            },
    {
        match config {
            Some(c) => Cli { config: c },
            None => Cli { config: DEFAULT_CONFIG_PATH.to_owned() },
        }
    }
}

} // verus!
