use vstd::prelude::*;

use crate::archive::{file_name_from_disposition, file_name_of};
use crate::error::BackupError;

verus! {

/// The `content-disposition` header of an answer.
pub enum Disposition {
    /// The answer has no such header.
    Absent,
    /// The header's value, as text.
    Text(String),
    /// The header's value is not visible ASCII; why it could not be read.
    Unreadable(String),
}

/// The answer to the first request of a download, after redirects.
pub struct Resolved {
    /// The URL that the redirects ended at.
    pub final_url: String,
    /// The `content-disposition` header of that answer.
    pub content_disposition: Disposition,
}

/// What to do once the archive URL has been resolved.
pub enum ResolveStep {
    /// Stop with this error.
    Failed(BackupError),
    /// The repository has nothing to archive: stop, successfully, writing nothing.
    Empty,
    /// Fetch the bytes from `url`, without the API headers, into `file_name`.
    Fetch { url: String, file_name: String },
}

/// The bytes of an archive and the name of the file they go to.
pub struct WriteRequest {
    pub file_name: String,
    pub bytes: Vec<u8>,
}

/// Decides the next step from the answer to the resolving request, or from the
/// message of its transport failure.
pub fn after_resolve(outcome: Result<Resolved, String>) -> (r: ResolveStep)
    ensures
        match outcome {
            Err(m) => r == ResolveStep::Failed(BackupError::Transport(m)),
            Ok(res) => match res.content_disposition {
                Disposition::Absent => r is Empty,
                Disposition::Unreadable(m) => r == ResolveStep::Failed(
                    BackupError::UnreadableHeader(m),
                ),
                Disposition::Text(cd) => r is Fetch && r->url@ == res.final_url@ && r->file_name@
                    == file_name_of(cd@),
            },
        },
{
    match outcome {
        Err(m) => ResolveStep::Failed(BackupError::Transport(m)),
        Ok(res) => match res.content_disposition {
            Disposition::Absent => ResolveStep::Empty,
            Disposition::Unreadable(m) => ResolveStep::Failed(BackupError::UnreadableHeader(m)),
            Disposition::Text(cd) => {
                let file_name = file_name_from_disposition(cd.as_str());
                ResolveStep::Fetch { url: res.final_url, file_name }
            },
        },
    }
}

/// Decides what to write from the answer to the fetching request, or from the
/// message of its transport failure.
pub fn after_fetch(file_name: String, outcome: Result<Vec<u8>, String>) -> (r: Result<
    WriteRequest,
    BackupError,
>)
    ensures
        match outcome {
            Err(m) => r == Err::<WriteRequest, BackupError>(BackupError::Transport(m)),
            Ok(bytes) => r == Ok::<WriteRequest, BackupError>(
                (WriteRequest { file_name, bytes }),
            ),
        },
{
    match outcome {
        Err(m) => Err(BackupError::Transport(m)),
        Ok(bytes) => Ok(WriteRequest { file_name, bytes }),
    }
}

/// The result of a download from the result of writing its file.
pub fn after_write(outcome: Result<(), String>) -> (r: Result<(), BackupError>)
    ensures
        match outcome {
            Err(m) => r == Err::<(), BackupError>(BackupError::Io(m)),
            Ok(_) => r is Ok,
        },
{
    match outcome {
        Err(m) => Err(BackupError::Io(m)),
        Ok(_) => Ok(()),
    }
}

} // verus!
