//! Parameters of one sync run.

use vstd::prelude::*;

verus! {

/// Everything one sync run needs: the repository coordinate, the
/// access credential, and the directory of the local store.
pub struct RunOptions {
    /// The name of the repository owner (user or organization).
    pub repo_owner: String,
    /// The name of the repository.
    pub repo: String,
    /// The personal access token used for authentication.
    pub github_access_token: String,
    /// The directory in which the data is stored.
    pub data_dir: String,
}

} // verus!
