//! Incremental mirror of a repository's issues and pull requests.
//!
//! The crate holds the synchronization core: the data model of the
//! fetched records, the file-name scheme of the local store, the
//! change-detection decision, and the step machine that drives one
//! sync run (paginated issue retrieval, per-issue comparison against
//! the local outline, and re-download of all comment pages for any
//! issue that changed). All network and file transfers are performed
//! by the surrounding program, which executes each requested action
//! and feeds the outcome back into the machine.

pub mod data;
pub mod laws;
pub mod paths;
pub mod run_options;
pub mod sync;
