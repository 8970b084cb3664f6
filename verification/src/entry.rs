//! The entry record and its mathematical model.

use vstd::prelude::*;

verus! {

/// What kind of file-system object an entry describes.
#[derive(Debug, Clone, Copy, PartialEq, Eq, Structural)]
pub enum EntryType {
    File,
    Directory,
}

/// A snapshot of one path's metadata, taken when the path was resolved.
#[derive(Debug, Clone, PartialEq, Eq)]
pub struct Entry {
    /// Creation time, in milliseconds since the Unix epoch.
    pub date_created: u128,
    /// Last access time, in milliseconds since the Unix epoch.
    pub date_last_opened: u128,
    /// Last modification time, in milliseconds since the Unix epoch.
    pub date_modified: u128,
    /// The final component of `path`.
    pub name: String,
    /// The path exactly as the caller gave it.
    pub path: String,
    /// Length in bytes for a file, zero for a directory.
    pub size: u64,
    pub entry_type: EntryType,
    /// `path` as a URL in the `file` scheme.
    pub url: String,
}

/// The model of an [`Entry`]: numbers as naturals, text as sequences of characters.
pub struct EntryView {
    pub date_created: nat,
    pub date_last_opened: nat,
    pub date_modified: nat,
    pub name: Seq<char>,
    pub path: Seq<char>,
    pub size: nat,
    pub entry_type: EntryType,
    pub url: Seq<char>,
}

impl EntryView {
    /// Every entry has a name, and a directory has size zero. The three
    /// times are counted from the Unix epoch and so are never negative.
    pub open spec fn wf(self) -> bool {
        &&& self.name.len() > 0
        &&& self.entry_type is Directory ==> self.size == 0
    }
}

impl View for Entry {
    type V = EntryView;

    open spec fn view(&self) -> EntryView {
        EntryView {
            date_created: self.date_created as nat,
            date_last_opened: self.date_last_opened as nat,
            date_modified: self.date_modified as nat,
            name: self.name@,
            path: self.path@,
            size: self.size as nat,
            entry_type: self.entry_type,
            url: self.url@,
        }
    }
}

impl Entry {
    /// Whether this entry satisfies the invariant of its model.
    pub open spec fn wf(&self) -> bool {
        self@.wf()
    }
}

/// The models of a sequence of entries, in the same order.
pub open spec fn entry_views(entries: Seq<Entry>) -> Seq<EntryView> {
    entries.map_values(|e: Entry| e@)
}

} // verus!
