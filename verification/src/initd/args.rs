//! Command line of the init process.

use vstd::prelude::*;

verus! {

/// What the init binary is asked to do.
pub enum Command {
    Init(InitArguments),
}

/// Arguments of `init`.
pub struct InitArguments {
    /// Path of the configuration file.
    pub config_file: String,
}

/// The whole command line.
pub struct Arguments {
    pub command: Command,
}

/// The configuration file read when the command line names none.
pub fn default_config_file() -> (path: String)
    ensures
        path@ == "/config.json"@,
{
    "/config.json".to_owned()
}

} // verus!
