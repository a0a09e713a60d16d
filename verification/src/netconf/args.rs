//! Command line of the network process.

use vstd::prelude::*;

verus! {

/// The whole command line.
pub struct Arguments {
    /// Path of the configuration file (default `/config.json`).
    pub config_file: String,
}

} // verus!
