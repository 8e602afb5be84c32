use vstd::prelude::*;

verus! {

/// An ordinary, recoverable failure of a file-system operation.
#[derive(Debug)]
pub enum FsError {
    NotFound,
    PermissionDenied,
    AlreadyExists,
    /// A seek would move the cursor before the start of the file, or past
    /// the largest representable position.
    InvalidSeek,
    /// The storage API offers no such operation.
    Unsupported,
    /// The backend failed the operation; the text describes why.
    Other(String),
}

/// The error that a failed storage-API call becomes, from the name of the
/// exception it raised (`None` when it raised something else) and a text
/// describing the raised value.
pub fn error_from_exception(name: Option<&str>, description: String) -> (r: FsError)
    ensures
        match name {
            Some(n) => if n@ == "NotFoundError"@ {
                r is NotFound
            } else if n@ == "NotAllowedError"@ || n@ == "NoModificationAllowedError"@ {
                r is PermissionDenied
            } else {
                r == FsError::Other(description)
            },
            None => r == FsError::Other(description),
        },
{
    match name {
        Some(n) => {
            let n = n.to_owned();
            if n == "NotFoundError".to_owned() {
                FsError::NotFound
            } else if n == "NotAllowedError".to_owned() {
                FsError::PermissionDenied
            } else if n == "NoModificationAllowedError".to_owned() {
                FsError::PermissionDenied
            } else {
                FsError::Other(description)
            }
        },
        None => FsError::Other(description),
    }
}

} // verus!
