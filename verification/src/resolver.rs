//! Resolving paths into entries: one path, a list of paths, the children of a
//! directory, and the parent of a path.

use vstd::prelude::*;
use crate::entry::{entry_views, Entry, EntryType, EntryView};
use crate::error::{EntryError, EntryErrorView};
use crate::file_url::{file_url, file_url_of, has_file_scheme};
use crate::path_text::{file_name, file_name_of, parent, parent_of, text_view};
use crate::stat::{
    lookup_views, stat_view, FileStat, FileTime, IoFailure, IoFailureView, Lookup, LookupView,
};

verus! {

/// The kind of entry that metadata describes: a file, a directory, or
/// neither.
pub open spec fn entry_type_of(stat: FileStat) -> Option<EntryType> {
    if stat.is_file {
        Some(EntryType::File)
    } else if stat.is_dir {
        Some(EntryType::Directory)
    } else {
        None
    }
}

/// Whole milliseconds from the Unix epoch to `time`; `None` where the time
/// is not recorded or lies before the epoch.
pub open spec fn epoch_millis(time: FileTime) -> Option<nat> {
    match time {
        FileTime::SinceEpoch { secs, nanos } => Some((secs * 1000 + nanos / 1_000_000) as nat),
        _ => None,
    }
}

/// The size of an entry: the reported length for a file, zero for a
/// directory whatever length is reported.
pub open spec fn entry_size(entry_type: EntryType, stat: FileStat) -> nat {
    match entry_type {
        EntryType::Directory => 0,
        EntryType::File => stat.len as nat,
    }
}

/// The entry for `path`, given the outcome of the metadata query, the final
/// component of the path and the path as a URL. The first step that fails
/// decides the error: the query, the kind, the three times, the name, the URL.
pub open spec fn entry_from(
    path: Seq<char>,
    stat: Result<FileStat, IoFailureView>,
    name: Option<Seq<char>>,
    url: Option<Seq<char>>,
) -> Result<EntryView, EntryErrorView> {
    match stat {
        Err(failure) => Err(EntryErrorView::Io(failure)),
        Ok(s) => match entry_type_of(s) {
            None => Err(EntryErrorView::UnknownEntryType),
            Some(entry_type) => match (
                epoch_millis(s.created),
                epoch_millis(s.accessed),
                epoch_millis(s.modified),
            ) {
                (Some(created), Some(accessed), Some(modified)) => match (name, url) {
                    (None, _) => Err(EntryErrorView::InvalidFileName),
                    (Some(n), _) if n.len() == 0 => Err(EntryErrorView::InvalidFileName),
                    (Some(_), None) => Err(EntryErrorView::InvalidFilePath),
                    (Some(n), Some(u)) => Ok(
                        EntryView {
                            date_created: created,
                            date_last_opened: accessed,
                            date_modified: modified,
                            name: n,
                            path: path,
                            size: entry_size(entry_type, s),
                            entry_type: entry_type,
                            url: u,
                        },
                    ),
                },
                _ => Err(EntryErrorView::InvalidFileTime),
            },
        },
    }
}

/// The entry for `path`, given the outcome of the metadata query for it.
pub open spec fn resolve(path: Seq<char>, stat: Result<FileStat, IoFailureView>) -> Result<
    EntryView,
    EntryErrorView,
> {
    entry_from(path, stat, file_name_of(path), file_url_of(path))
}

/// The entry of a lookup, or `None` where resolving it fails.
pub open spec fn resolved(lookup: LookupView) -> Option<EntryView> {
    match resolve(lookup.path, lookup.stat) {
        Ok(entry) => Some(entry),
        Err(_) => None,
    }
}

/// The entries of the lookups that resolve, in the order of the lookups.
pub open spec fn resolved_entries(lookups: Seq<LookupView>) -> Seq<EntryView> {
    lookups.filter_map(|l: LookupView| resolved(l))
}

/// The model of the outcome of resolving a path.
pub open spec fn result_view(result: Result<Entry, EntryError>) -> Result<
    EntryView,
    EntryErrorView,
> {
    match result {
        Ok(entry) => Ok(entry@),
        Err(error) => Err(error@),
    }
}

/// Tells a file from a directory; `None` for anything else.
pub fn get_entry_type(metadata: &FileStat) -> (entry_type: Option<EntryType>)
    ensures
        entry_type == entry_type_of(*metadata),
{
    if metadata.is_file {
        Some(EntryType::File)
    } else if metadata.is_dir {
        Some(EntryType::Directory)
    } else {
        None
    }
}

/// Converts a time stamp to whole milliseconds since the Unix epoch. Fails
/// with [`EntryError::InvalidFileTime`] where the time is not recorded or
/// lies before the epoch.
pub fn millis_since_epoch(time: &FileTime) -> (millis: Result<u128, EntryError>)
    ensures
        (match millis {
            Ok(m) => epoch_millis(*time) == Some(m as nat),
            Err(e) => epoch_millis(*time) is None && e is InvalidFileTime,
        }),
{
    match time {
        FileTime::SinceEpoch { secs, nanos } => {
            let whole: u128 = *secs as u128 * 1000;
            let part: u32 = *nanos / 1_000_000;
            Ok(whole + part as u128)
        },
        _ => Err(EntryError::InvalidFileTime),
    }
}

/// Puts an entry together from the outcome of the metadata query for `path`,
/// the final component of `path` and `path` as a URL.
///
/// Succeeds exactly where the query succeeded, the metadata describes a file
/// or a directory, all three times lie at or after the Unix epoch, the name
/// is present and not empty, and the URL is present. Otherwise the first of
/// these that fails decides the error.
pub fn build_entry(
    path: &str,
    stat: Result<FileStat, IoFailure>,
    name: Option<String>,
    url: Option<String>,
) -> (result: Result<Entry, EntryError>)
    ensures
        result_view(result) == entry_from(path@, stat_view(stat), text_view(name), text_view(url)),
        result matches Ok(entry) ==> entry.wf(),
{
    let metadata = match stat {
        Ok(metadata) => metadata,
        Err(failure) => {
            return Err(EntryError::Io(failure));
        },
    };
    let entry_type = match get_entry_type(&metadata) {
        Some(entry_type) => entry_type,
        None => {
            return Err(EntryError::UnknownEntryType);
        },
    };
    let date_created: u128 = match millis_since_epoch(&metadata.created) {
        Ok(millis) => millis,
        Err(error) => {
            return Err(error);
        },
    };
    let date_last_opened: u128 = match millis_since_epoch(&metadata.accessed) {
        Ok(millis) => millis,
        Err(error) => {
            return Err(error);
        },
    };
    let date_modified: u128 = match millis_since_epoch(&metadata.modified) {
        Ok(millis) => millis,
        Err(error) => {
            return Err(error);
        },
    };
    let name = match name {
        Some(name) => name,
        None => {
            return Err(EntryError::InvalidFileName);
        },
    };
    if name.as_str().is_empty() {
        return Err(EntryError::InvalidFileName);
    }
    let url = match url {
        Some(url) => url,
        None => {
            return Err(EntryError::InvalidFilePath);
        },
    };
    let size: u64 = match entry_type {
        EntryType::Directory => 0,
        EntryType::File => metadata.len,
    };
    Ok(
        Entry {
            date_created,
            date_last_opened,
            date_modified,
            name,
            path: path.to_owned(),
            size,
            entry_type,
            url,
        },
    )
}

/// Resolves one path, given the outcome of the metadata query for it.
///
/// The name is the final component of `path` and the URL is `path` in the
/// `file` scheme; the rest is as in [`build_entry`].
pub fn get_entry(path: &str, stat: Result<FileStat, IoFailure>) -> (result: Result<
    Entry,
    EntryError,
>)
    ensures
        result_view(result) == resolve(path@, stat_view(stat)),
        result matches Ok(entry) ==> entry.wf() && entry.path@ == path@ && has_file_scheme(
            entry.url@,
        ),
        (match (stat, result) {
            (Ok(s), Ok(entry)) => if s.is_file {
                entry.entry_type is File && entry.size == s.len
            } else {
                entry.entry_type is Directory && entry.size == 0
            },
            (Ok(_), Err(error)) => !(error is Io) && !(error is ParentNotFound),
            (Err(failure), Err(error)) => error@ == EntryErrorView::Io(failure@),
            (Err(_), Ok(_)) => false,
        }),
{
    let name = file_name(path);
    let url = file_url(path);
    build_entry(path, stat, name, url)
}

/// Resolves each lookup and keeps the entries of those that resolve, in the
/// order of the lookups. A lookup that fails to resolve is left out; the call
/// itself never fails.
pub fn get_entries_for_paths(lookups: Vec<Lookup>) -> (result: Result<Vec<Entry>, EntryError>)
    ensures
        result is Ok,
        entry_views(result->Ok_0@) == resolved_entries(lookup_views(lookups@)),
        forall|i: int|
            0 <= i < result->Ok_0@.len() ==> (#[trigger] result->Ok_0@[i]).wf() && has_file_scheme(
                result->Ok_0@[i].url@,
            ),
{
    let ghost all = lookup_views(lookups@);
    let mut entries: Vec<Entry> = Vec::new();
    for lookup in iter: lookups
        invariant
            iter.seq() == lookups@,
            all == lookup_views(lookups@),
            entry_views(entries@) == resolved_entries(all.take(iter.index())),
            forall|i: int|
                0 <= i < entries@.len() ==> (#[trigger] entries@[i]).wf() && has_file_scheme(
                    entries@[i].url@,
                ),
    {
        proof {
            all.lemma_filter_map_take_succ(|l: LookupView| resolved(l), iter.index());
        }
        let ghost before = entries@;
        let Lookup { path, stat } = lookup;
        match get_entry(path.as_str(), stat) {
            Ok(entry) => {
                entries.push(entry);
                assert(entry_views(entries@) == entry_views(before) + seq![entry@]);
            },
            Err(_) => {},
        }
    }
    assert(all.take(all.len() as int) == all);
    Ok(entries)
}

/// The model of the outcome of listing a directory.
pub open spec fn listing_view(listing: Result<Vec<Lookup>, IoFailure>) -> Result<
    Seq<LookupView>,
    IoFailureView,
> {
    match listing {
        Ok(children) => Ok(lookup_views(children@)),
        Err(failure) => Err(failure@),
    }
}

/// The model of the outcome of resolving several paths.
pub open spec fn entries_view(result: Result<Vec<Entry>, EntryError>) -> Result<
    Seq<EntryView>,
    EntryErrorView,
> {
    match result {
        Ok(entries) => Ok(entry_views(entries@)),
        Err(error) => Err(error@),
    }
}

/// The entries of a directory, given the outcome of listing it: the failure
/// of the listing, or the entries of the children that resolve.
pub open spec fn directory_entries(listing: Result<Seq<LookupView>, IoFailureView>) -> Result<
    Seq<EntryView>,
    EntryErrorView,
> {
    match listing {
        Ok(children) => Ok(resolved_entries(children)),
        Err(failure) => Err(EntryErrorView::Io(failure)),
    }
}

/// Resolves the children of a directory, given the outcome of listing it:
/// the path of each child as the operating system reported it, with the
/// outcome of the metadata query for it.
///
/// Fails exactly where the listing failed, with that failure. Otherwise the
/// children are resolved as [`get_entries_for_paths`] resolves them.
pub fn get_entries(listing: Result<Vec<Lookup>, IoFailure>) -> (result: Result<
    Vec<Entry>,
    EntryError,
>)
    ensures
        entries_view(result) == directory_entries(listing_view(listing)),
        result is Ok <==> listing is Ok,
        result matches Ok(entries) ==> forall|i: int|
            0 <= i < entries@.len() ==> (#[trigger] entries@[i]).wf() && has_file_scheme(
                entries@[i].url@,
            ),
{
    match listing {
        Ok(children) => get_entries_for_paths(children),
        Err(failure) => Err(EntryError::Io(failure)),
    }
}

/// The entry of the parent of a path, given the parent and the outcome of
/// the metadata query for the parent.
pub open spec fn entry_of_parent_from(
    parent: Option<Seq<char>>,
    parent_stat: Result<FileStat, IoFailureView>,
) -> Result<EntryView, EntryErrorView> {
    match parent {
        Some(dir) => resolve(dir, parent_stat),
        None => Err(EntryErrorView::ParentNotFound),
    }
}

/// The entry of the parent of `path`, given the outcome of the metadata query
/// for the parent.
pub open spec fn parent_entry(
    path: Seq<char>,
    parent_stat: Result<FileStat, IoFailureView>,
) -> Result<EntryView, EntryErrorView> {
    entry_of_parent_from(parent_of(path), parent_stat)
}

/// The path of the parent of `path`: the path whose metadata
/// [`get_parent_entry`] needs. Fails with [`EntryError::ParentNotFound`]
/// exactly where `path` has no parent.
pub fn parent_path(path: &str) -> (result: Result<String, EntryError>)
    ensures
        (match result {
            Ok(dir) => parent_of(path@) == Some(dir@),
            Err(error) => parent_of(path@) is None && error is ParentNotFound,
        }),
{
    match parent(path) {
        Some(dir) => Ok(dir),
        None => Err(EntryError::ParentNotFound),
    }
}

/// Resolves the parent of a path, given the parent, if there is one, and the
/// outcome of the metadata query for it.
///
/// Fails with [`EntryError::ParentNotFound`] where there is no parent,
/// whatever the query gave. Otherwise the parent is resolved as
/// [`get_entry`] resolves it.
pub fn entry_of_parent(parent: Option<String>, parent_stat: Result<FileStat, IoFailure>) -> (result:
    Result<Entry, EntryError>)
    ensures
        result_view(result) == entry_of_parent_from(text_view(parent), stat_view(parent_stat)),
        parent is None ==> result matches Err(EntryError::ParentNotFound),
        result matches Ok(entry) ==> entry.wf() && text_view(parent) == Some(entry.path@)
            && has_file_scheme(entry.url@),
{
    match parent {
        Some(dir) => get_entry(dir.as_str(), parent_stat),
        None => Err(EntryError::ParentNotFound),
    }
}

/// Resolves the parent of `path`, given the outcome of the metadata query
/// for the parent, whose path [`parent_path`] gives.
///
/// Fails with [`EntryError::ParentNotFound`] exactly where `path` has no
/// parent. Otherwise the parent is resolved as [`get_entry`] resolves it.
pub fn get_parent_entry(path: &str, parent_stat: Result<FileStat, IoFailure>) -> (result: Result<
    Entry,
    EntryError,
>)
    ensures
        result_view(result) == parent_entry(path@, stat_view(parent_stat)),
        parent_of(path@) is None <==> result matches Err(EntryError::ParentNotFound),
        result matches Ok(entry) ==> entry.wf() && parent_of(path@) == Some(entry.path@)
            && has_file_scheme(entry.url@),
{
    entry_of_parent(parent(path), parent_stat)
}

} // verus!
