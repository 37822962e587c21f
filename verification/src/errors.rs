//! Error taxonomy for the library. Every fallible operation returns one of
//! these typed errors; nothing in the library panics.

use vstd::prelude::*;

verus! {

/// The root cache directory could not be resolved.
#[derive(Debug, Clone, Copy, PartialEq, Eq, Structural)]
pub enum ConfigError {
    /// No entry of the data-directory search list was usable.
    NoUsablePath,
}

/// The named source is not known to the library.
#[derive(Debug, Clone, Copy, PartialEq, Eq, Structural)]
pub enum LookupError {
    UnknownSource,
}

/// Remote version discovery failed.
#[derive(Debug, Clone, Copy, PartialEq, Eq, Structural)]
pub enum FetchError {
    /// The request itself failed (connection, status, timeout).
    Network,
    /// The response arrived but did not have the expected shape.
    UnexpectedResponse,
    /// The source answered but reported no version (e.g. an empty result set).
    NotFound,
}

/// A transfer or write of the data file failed.
#[derive(Debug, Clone, Copy, PartialEq, Eq, Structural)]
pub enum DownloadError {
    Network,
    Io,
}

/// A file name does not follow the source's naming convention.
#[derive(Debug, Clone, Copy, PartialEq, Eq, Structural)]
pub enum ParseError {
    NoMatch,
}

/// Resolving the latest data file failed.
#[derive(Debug, Clone, Copy, PartialEq, Eq, Structural)]
pub enum ResolveError {
    /// Offline scan found no conforming file in the cache directory.
    NoLocalData,
    /// Several conforming files were found but the version pattern in use
    /// declares no ordering, so no file may be picked as "latest".
    AmbiguousOrNoComparator,
    Download(DownloadError),
    Fetch(FetchError),
}

} // verus!
