//! The ways in which resolving a path can fail.

use vstd::prelude::*;
use crate::stat::{IoErrorKind, IoFailure, IoFailureView};

verus! {

/// Why a path could not be turned into an entry.
#[derive(Debug, Clone, PartialEq, Eq)]
pub enum EntryError {
    /// The operating system could not read the metadata or the directory.
    Io(IoFailure),
    /// The path names neither a regular file nor a directory.
    UnknownEntryType,
    /// A time stamp is not recorded, or lies before the Unix epoch.
    InvalidFileTime,
    /// The path has no final component.
    InvalidFileName,
    /// The path cannot be written as a URL in the `file` scheme.
    InvalidFilePath,
    /// The path has no parent.
    ParentNotFound,
}

/// The model of an [`EntryError`].
pub enum EntryErrorView {
    Io(IoFailureView),
    UnknownEntryType,
    InvalidFileTime,
    InvalidFileName,
    InvalidFilePath,
    ParentNotFound,
}

impl EntryErrorView {
    /// The text shown to a caller for this error.
    pub open spec fn message(self) -> Seq<char> {
        match self {
            EntryErrorView::Io(f) => f.message,
            EntryErrorView::UnknownEntryType => "Unknown entry type"@,
            EntryErrorView::InvalidFileTime => "Invalid file time"@,
            EntryErrorView::InvalidFileName => "Invalid file name"@,
            EntryErrorView::InvalidFilePath => "Invalid file path"@,
            EntryErrorView::ParentNotFound => "Parent not found"@,
        }
    }

    /// The error says that the path does not exist.
    pub open spec fn is_not_found(self) -> bool {
        self matches EntryErrorView::Io(f) && f.kind is NotFound
    }
}

impl View for EntryError {
    type V = EntryErrorView;

    open spec fn view(&self) -> EntryErrorView {
        match self {
            EntryError::Io(f) => EntryErrorView::Io(f@),
            EntryError::UnknownEntryType => EntryErrorView::UnknownEntryType,
            EntryError::InvalidFileTime => EntryErrorView::InvalidFileTime,
            EntryError::InvalidFileName => EntryErrorView::InvalidFileName,
            EntryError::InvalidFilePath => EntryErrorView::InvalidFilePath,
            EntryError::ParentNotFound => EntryErrorView::ParentNotFound,
        }
    }
}

impl EntryError {
    /// The description of this error as text: the operating system's own
    /// words for a failure of the operating system, a fixed phrase otherwise.
    pub fn message(&self) -> (text: String)
        ensures
            text@ == self@.message(),
    {
        match self {
            EntryError::Io(f) => f.message.clone(),
            EntryError::UnknownEntryType => "Unknown entry type".to_owned(),
            EntryError::InvalidFileTime => "Invalid file time".to_owned(),
            EntryError::InvalidFileName => "Invalid file name".to_owned(),
            EntryError::InvalidFilePath => "Invalid file path".to_owned(),
            EntryError::ParentNotFound => "Parent not found".to_owned(),
        }
    }

    /// Whether the operating system reported that the path does not exist.
    pub fn is_not_found(&self) -> (b: bool)
        ensures
            b == self@.is_not_found(),
    {
        match self {
            EntryError::Io(f) => match f.kind {
                IoErrorKind::NotFound => true,
                _ => false,
            },
            _ => false,
        }
    }
}

} // verus!
