use vstd::prelude::*;

verus! {

/// Why a listing or a download did not complete.
#[derive(Debug, Clone, PartialEq, Eq)]
pub enum BackupError {
    /// A request could not be sent or its answer could not be read.
    Transport(String),
    /// The listing answer is not a list of repositories.
    Parse(String),
    /// The archive could not be written to disk.
    Io(String),
    /// The access token cannot be carried in a request header.
    InvalidToken,
    /// A response header holds bytes that are not visible ASCII.
    UnreadableHeader(String),
}

} // verus!
