//! What the operating system reports about a path, as plain values.
//!
//! The caller queries the file system and records the answer in these types.

use vstd::prelude::*;

verus! {

/// A time stamp of a file as the operating system reports it.
#[derive(Debug, Clone, Copy, PartialEq, Eq, Structural)]
pub enum FileTime {
    /// The platform or the file system does not record this time.
    Unsupported,
    /// The time lies before the Unix epoch.
    BeforeEpoch,
    /// Whole seconds since the Unix epoch, and the nanoseconds past the last
    /// whole second.
    SinceEpoch { secs: u64, nanos: u32 },
}

/// The metadata of one path.
#[derive(Debug, Clone, Copy, PartialEq, Eq, Structural)]
pub struct FileStat {
    /// The path names a regular file.
    pub is_file: bool,
    /// The path names a directory.
    pub is_dir: bool,
    /// The length in bytes that the operating system reports.
    pub len: u64,
    pub created: FileTime,
    pub accessed: FileTime,
    pub modified: FileTime,
}

/// The class of a failure of the operating system.
#[derive(Debug, Clone, Copy, PartialEq, Eq, Structural)]
pub enum IoErrorKind {
    NotFound,
    PermissionDenied,
    NotADirectory,
    Other,
}

/// A failure of the operating system while it looked at a path.
#[derive(Debug, Clone, PartialEq, Eq)]
pub struct IoFailure {
    pub kind: IoErrorKind,
    /// The operating system's description of the failure.
    pub message: String,
}

/// The model of an [`IoFailure`].
pub struct IoFailureView {
    pub kind: IoErrorKind,
    pub message: Seq<char>,
}

impl View for IoFailure {
    type V = IoFailureView;

    open spec fn view(&self) -> IoFailureView {
        IoFailureView { kind: self.kind, message: self.message@ }
    }
}

/// The model of the outcome of a metadata query.
pub open spec fn stat_view(stat: Result<FileStat, IoFailure>) -> Result<FileStat, IoFailureView> {
    match stat {
        Ok(s) => Ok(s),
        Err(f) => Err(f@),
    }
}

/// A path together with the outcome of the metadata query for it.
#[derive(Debug, PartialEq, Eq)]
pub struct Lookup {
    pub path: String,
    pub stat: Result<FileStat, IoFailure>,
}

/// The model of a [`Lookup`].
pub struct LookupView {
    pub path: Seq<char>,
    pub stat: Result<FileStat, IoFailureView>,
}

impl View for Lookup {
    type V = LookupView;

    open spec fn view(&self) -> LookupView {
        LookupView { path: self.path@, stat: stat_view(self.stat) }
    }
}

/// The models of a sequence of lookups, in the same order.
pub open spec fn lookup_views(lookups: Seq<Lookup>) -> Seq<LookupView> {
    lookups.map_values(|l: Lookup| l@)
}

} // verus!
