//! The error taxonomy of a run. Every error is terminal: the caller prints
//! the diagnostic and ends the run with a failure status.

use vstd::prelude::*;

verus! {

/// Why a run failed. `Download`, `Write` and `Read` carry the name of the
/// file whose handling failed.
#[derive(Debug)]
pub enum IdError {
    /// No argument was supplied on the command line.
    Usage,
    /// The network fetch of the catalog failed.
    Download(String),
    /// The fetched catalog could not be persisted locally.
    Write(String),
    /// The cached catalog or the input file could not be read.
    Read(String),
    /// The cached catalog document is malformed or has the wrong shape.
    Parse,
}

impl IdError {
    /// The diagnostic for this error.
    pub open spec fn spec_message(&self) -> Seq<char> {
        match self {
            IdError::Usage => "missing argument (filepath or hash)"@,
            IdError::Download(f) => "Cannot download "@ + f@,
            IdError::Write(f) => "Cannot save "@ + f@,
            IdError::Read(f) => "Cannot read "@ + f@,
            IdError::Parse => "Cannot parse the catalog"@,
        }
    }

    /// Renders the diagnostic that a run prints before it ends in failure.
    pub fn message(&self) -> (r: String)
        ensures
            r@ == self.spec_message(),
    {
        match self {
            IdError::Usage => String::from_str("missing argument (filepath or hash)"),
            IdError::Download(f) => String::from_str("Cannot download ").concat(f.as_str()),
            IdError::Write(f) => String::from_str("Cannot save ").concat(f.as_str()),
            IdError::Read(f) => String::from_str("Cannot read ").concat(f.as_str()),
            IdError::Parse => String::from_str("Cannot parse the catalog"),
        }
    }
}

} // verus!
