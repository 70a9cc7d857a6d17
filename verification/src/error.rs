use vstd::prelude::*;

verus! {

/// The error taxonomy of the storage core.
///
/// `IoError` stands for an underlying storage failure reported by a
/// caller's environment; `NoDirectory` means no repository metadata
/// directory was found while walking upward from a starting directory;
/// `InvalidCommit` means stored bytes do not parse as a commit;
/// `InvalidIndex` means a stored reference record is malformed (for
/// example a HEAD record shorter than its marker); `NotFound` means a
/// requested object or record does not exist, kept distinct from
/// `IoError` so callers can tell "missing" from "corrupt storage".
#[derive(Clone, Copy, Debug, PartialEq, Eq, Structural)]
pub enum GitCliError {
    IoError,
    NoDirectory,
    InvalidCommit,
    InvalidIndex,
    NotFound,
}

impl GitCliError {
    /// A human-readable description of the error.
    pub fn message(&self) -> (r: String)
        ensures
            self is IoError ==> r@ == "IO error"@,
            self is NoDirectory ==> r@ == "No Directory Found"@,
            self is InvalidCommit ==> r@ == "Invalid commit."@,
            self is InvalidIndex ==> r@ == "Invalid index"@,
            self is NotFound ==> r@ == "Not found"@,
    {
        match self {
            GitCliError::IoError => "IO error".to_owned(),
            GitCliError::NoDirectory => "No Directory Found".to_owned(),
            GitCliError::InvalidCommit => "Invalid commit.".to_owned(),
            GitCliError::InvalidIndex => "Invalid index".to_owned(),
            GitCliError::NotFound => "Not found".to_owned(),
        }
    }
}

} // verus!
