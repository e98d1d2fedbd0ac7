//! The command surface of the monitoring tool.
//!
//! Argument parsing happens outside the library; these types are the
//! parsed result the rest of the program works with.

use vstd::prelude::*;

verus! {

/// A parsed invocation: exactly one command.
pub struct Cli {
    pub command: Commands,
}

/// The one-shot report commands. Each prints a single report and exits;
/// the live dashboard is driven separately through the library's state
/// and session types.
pub enum Commands {
    /// Print a summary of the current epoch.
    Epoch,
    /// Print a cluster status report: recent TPS and top validators.
    Status,
    /// Print one validator's vote-account details.
    Validator { pubkey: String },
}

} // verus!
