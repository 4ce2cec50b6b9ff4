//! The records served by the repository listing and the repository details.

use vstd::prelude::*;

verus! {

/// One entry of the repository listing.
#[derive(Debug)]
pub struct RepoInfo {
    pub name: String,
}

/// Details of one repository, gathered by read-only inspection.
#[derive(Debug)]
pub struct RepoDetail {
    pub name: String,
    pub created_at: String,
    pub last_commit: String,
    pub branch_count: i32,
    pub commit_count: i32,
}

} // verus!
