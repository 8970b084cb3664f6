//! Turns file-system paths, together with what the operating system reported
//! about them, into entry records for a file browser.
//!
//! The crate performs no input or output of its own. A caller asks the
//! operating system about a path, hands the answer over as a [`FileStat`] or an
//! [`IoFailure`], and receives an [`Entry`] or an [`EntryError`]:
//!
//! - [`get_entry`] resolves one path;
//! - [`get_entries_for_paths`] resolves a list of paths and leaves out those
//!   that fail;
//! - [`get_entries`] resolves the children of a directory;
//! - [`get_parent_entry`] resolves the parent of a path, whose path
//!   [`parent_path`] gives.

pub mod entry;
pub mod error;
pub mod file_url;
pub mod laws;
pub mod path_text;
pub mod resolver;
pub mod stat;

pub use entry::{Entry, EntryType, EntryView};
pub use error::{EntryError, EntryErrorView};
pub use resolver::{
    build_entry, entry_of_parent, get_entries, get_entries_for_paths, get_entry, get_entry_type,
    get_parent_entry, millis_since_epoch, parent_path,
};
pub use stat::{FileStat, FileTime, IoErrorKind, IoFailure, IoFailureView, Lookup, LookupView};
