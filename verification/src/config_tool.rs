//! Command line of the configuration tool.

use vstd::prelude::*;

verus! {

/// What the configuration tool is asked to do.
pub enum Command {
    /// Print the JSON schema of the configuration file.
    GenerateSchema,
    /// Load a configuration file and fail when it is not valid.
    VerifyConfig { file_name: String },
}

} // verus!
