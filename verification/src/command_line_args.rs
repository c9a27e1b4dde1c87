//! Program configuration as read from the command line.

use vstd::prelude::*;

verus! {

/// Where the vote store lives.
#[derive(Clone, Debug)]
pub struct DatabaseArgs {
    /// URL to database
    pub database_url: String,
}

/// All program options.
#[derive(Clone, Debug)]
pub struct CommandLineArgs {
    pub database: DatabaseArgs,
}

} // verus!
