use vstd::prelude::*;

verus! {

/// Why a resolution or a catalog listing failed. Each variant carries the
/// values that the failure is about.
#[derive(Debug, Clone, PartialEq, Eq)]
pub enum StationError {
    /// The directory to scan does not exist.
    NotFound { path: String },
    /// The directory exists but could not be enumerated, or an entry's
    /// metadata could not be read; `stage` says which read failed.
    NotReadable { path: String, stage: ReadStage },
    /// The match pattern does not compile.
    InvalidPattern { pattern: String },
    /// The scan succeeded but no entry name matched.
    NoMatch { path: String, pattern: String },
    /// The requested version field lies past the last segment of the name.
    IndexOutOfRange { name: String, index: usize, count: usize },
    /// The requested plugin category is not a directory of the catalog.
    UnknownCategory { name: String },
    /// The request named no known artifact family or query.
    UnknownQuest { quest: String },
    /// The request presented a token other than the configured one.
    InvalidToken { token: String },
}

/// Which filesystem read a `NotReadable` failure comes from.
#[derive(Debug, Clone, Copy, PartialEq, Eq, Structural)]
pub enum ReadStage {
    /// Enumerating the directory that a build is selected from.
    Scan,
    /// Enumerating the catalog root for its categories.
    Catalog,
    /// Opening a category directory for its packages.
    CategoryOpen,
    /// Reading the metadata of an entry of a category directory.
    Metadata,
}

/// How a failure is shown to the client.
#[derive(Debug, Clone, Copy, PartialEq, Eq, Structural)]
pub enum ErrorClass {
    /// The client asked for something that does not exist.
    BadRequest,
    /// The server could not read or interpret its own files.
    Internal,
}

pub open spec fn class_of(e: StationError) -> ErrorClass {
    match e {
        StationError::UnknownCategory { .. } | StationError::UnknownQuest { .. } | StationError::InvalidToken { .. } => ErrorClass::BadRequest,
        _ => ErrorClass::Internal,
    }
}

impl StationError {
    /// Requests for an unknown category or family, or with a wrong token,
    /// are the client's fault; everything else is a failure on the server's
    /// side.
    pub fn class(&self) -> (r: ErrorClass)
        ensures
            r == class_of(*self),
    {
        match self {
            StationError::UnknownCategory { .. } | StationError::UnknownQuest { .. } | StationError::InvalidToken { .. } => ErrorClass::BadRequest,
            _ => ErrorClass::Internal,
        }
    }
}

} // verus!
