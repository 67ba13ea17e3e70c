use vstd::prelude::*;

use crate::archive::{archive_url_of, archive_urls, Repo};
use crate::error::BackupError;

verus! {

/// The first page of up to 100 repositories that the authenticated user owns,
/// most recently updated first.
pub const REPOS_URL: &'static str =
    "https://api.github.com/user/repos?per_page=100&type=owner&page=1&sort=updated";

/// What came of asking the API for the repository list.
pub enum Listing {
    /// The request failed or its body could not be read.
    Unreachable(String),
    /// The body is not a list of repositories.
    Malformed(String),
    /// The repositories, in the order of the answer.
    Repos(Vec<Repo>),
}

/// The archive URLs of a listing, in its order, or why there are none.
pub fn after_listing(listing: Listing) -> (r: Result<Vec<String>, BackupError>)
    ensures
        match listing {
            Listing::Unreachable(m) => r == Err::<Vec<String>, BackupError>(
                BackupError::Transport(m),
            ),
            Listing::Malformed(m) => r == Err::<Vec<String>, BackupError>(BackupError::Parse(m)),
            Listing::Repos(repos) => r is Ok && r->Ok_0.len() == repos.len() && forall|i: int|
                0 <= i < repos.len() ==> #[trigger] r->Ok_0[i]@ == archive_url_of(
                    repos[i].archive_url@,
                    repos[i].default_branch@,
                ),
        },
{
    match listing {
        Listing::Unreachable(m) => Err(BackupError::Transport(m)),
        Listing::Malformed(m) => Err(BackupError::Parse(m)),
        Listing::Repos(repos) => Ok(archive_urls(&repos)),
    }
}

} // verus!
