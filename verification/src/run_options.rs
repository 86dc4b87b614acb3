//! Invocation parameters, as plain values.
//!
//! The surrounding program parses its command line into these
//! records before handing them to the sync pipeline.

use vstd::prelude::*;

pub mod issues_sync_run_options;

verus! {

/// The whole invocation: which command to run.
pub struct RunOptions {
    pub command: RunCommand,
}

/// The commands the program knows.
pub enum RunCommand {
    IssuesSync(issues_sync_run_options::RunOptions),
}

} // verus!
