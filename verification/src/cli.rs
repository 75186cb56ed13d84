//! The command-line surface: which of the three entry points a session runs.
//! Parsing the real command line happens outside the library, which hands the
//! parsed values over in these types.

use vstd::prelude::*;

verus! {

/// A parsed invocation.
pub struct Cli {
    pub command: Commands,
}

/// The three entry points: scaffolding a fresh workspace, one run of a single
/// task, or the interactive watch session.
pub enum Commands {
    /// Initialize a new workspace at the given path.
    Init { path: String },
    /// Run one task, optionally with an explicit input file.
    Run { day: u8, part: u8, input: Option<String> },
    /// Watch mode with the interactive dashboard.
    Watch,
}

} // verus!
