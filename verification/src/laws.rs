//! What holds of resolution in general, proved from the definitions in
//! [`crate::resolver`].

use vstd::prelude::*;
use crate::entry::EntryView;
use crate::error::EntryErrorView;
use crate::path_text::parent_of;
use crate::resolver::{
    directory_entries, entry_from, parent_entry, resolve, resolved, resolved_entries,
};
use crate::stat::{FileStat, IoFailureView, LookupView};

verus! {

/// Every entry that resolution produces has a name that is not empty, size
/// zero if it is a directory, and the path that was resolved.
pub proof fn lemma_entry_is_well_formed(
    path: Seq<char>,
    stat: Result<FileStat, IoFailureView>,
    name: Option<Seq<char>>,
    url: Option<Seq<char>>,
)
    ensures
        entry_from(path, stat, name, url) matches Ok(entry) ==> entry.wf() && entry.path == path
            && name == Some(entry.name) && url == Some(entry.url),
{
}

/// A regular file resolves, if it resolves at all, to an entry of type file
/// whose size is the length that the operating system reported.
pub proof fn lemma_file_entry(path: Seq<char>, stat: FileStat)
    requires
        stat.is_file,
    ensures
        resolve(path, Ok(stat)) matches Ok(entry) ==> entry.entry_type is File && entry.size
            == stat.len,
{
}

/// A directory resolves, if it resolves at all, to an entry of type
/// directory whose size is zero, whatever length the operating system
/// reported.
pub proof fn lemma_directory_entry(path: Seq<char>, stat: FileStat)
    requires
        stat.is_dir,
        !stat.is_file,
    ensures
        resolve(path, Ok(stat)) matches Ok(entry) ==> entry.entry_type is Directory && entry.size
            == 0,
{
}

/// Where the metadata query failed, resolution fails with that failure. A
/// path that does not exist so yields an error of the not-found class.
pub proof fn lemma_query_failure_is_kept(path: Seq<char>, failure: IoFailureView)
    ensures
        resolve(path, Err(failure)) == Err::<EntryView, EntryErrorView>(
            EntryErrorView::Io(failure),
        ),
        failure.kind is NotFound ==> resolve(path, Err(failure))->Err_0.is_not_found(),
        resolved(LookupView { path, stat: Err(failure) }) is None,
{
}

/// No lookups give no entries.
pub proof fn lemma_resolved_entries_empty()
    ensures
        resolved_entries(Seq::empty()) == Seq::<EntryView>::empty(),
{
}

/// One more lookup at the end adds its entry at the end if it resolves, and
/// nothing if it does not.
pub proof fn lemma_resolved_entries_push(lookups: Seq<LookupView>, lookup: LookupView)
    ensures
        resolved_entries(lookups.push(lookup)) == (match resolved(lookup) {
            Some(entry) => resolved_entries(lookups).push(entry),
            None => resolved_entries(lookups),
        }),
{
    let longer = lookups.push(lookup);
    assert(longer.drop_last() == lookups);
    assert(longer.last() == lookup);
    match resolved(lookup) {
        Some(entry) => {
            assert(resolved_entries(lookups) + seq![entry] == resolved_entries(lookups).push(
                entry,
            ));
        },
        None => {},
    }
}

/// Resolving two lists one after the other gives the entries of the first
/// followed by the entries of the second: the order of the lookups is kept.
pub proof fn lemma_resolved_entries_concat(first: Seq<LookupView>, second: Seq<LookupView>)
    ensures
        resolved_entries(first + second) == resolved_entries(first) + resolved_entries(second),
    decreases second.len(),
{
    if second.len() == 0 {
        assert(first + second == first);
        assert(resolved_entries(first) + resolved_entries(second) == resolved_entries(first));
    } else {
        let front = second.drop_last();
        let last = second.last();
        assert(first + second == (first + front).push(last));
        assert(second == front.push(last));
        lemma_resolved_entries_concat(first, front);
        lemma_resolved_entries_push(first + front, last);
        lemma_resolved_entries_push(front, last);
        match resolved(last) {
            Some(entry) => {
                assert((resolved_entries(first) + resolved_entries(front)).push(entry)
                    == resolved_entries(first) + resolved_entries(front).push(entry));
            },
            None => {},
        }
    }
}

/// A lookup that does not resolve leaves no trace: the result is what it
/// would be without that lookup.
pub proof fn lemma_failed_lookup_is_left_out(
    before: Seq<LookupView>,
    lookup: LookupView,
    after: Seq<LookupView>,
)
    requires
        resolved(lookup) is None,
    ensures
        resolved_entries(before.push(lookup) + after) == resolved_entries(before + after),
{
    lemma_resolved_entries_concat(before.push(lookup), after);
    lemma_resolved_entries_concat(before, after);
    lemma_resolved_entries_push(before, lookup);
}

/// There are never more entries than lookups.
pub proof fn lemma_resolved_entries_len(lookups: Seq<LookupView>)
    ensures
        resolved_entries(lookups).len() <= lookups.len(),
    decreases lookups.len(),
{
    if lookups.len() > 0 {
        lemma_resolved_entries_len(lookups.drop_last());
    }
}

/// Where every lookup resolves, there is one entry for each lookup, at the
/// same position, with the path of that lookup.
pub proof fn lemma_all_lookups_resolve(lookups: Seq<LookupView>)
    requires
        forall|i: int| 0 <= i < lookups.len() ==> resolved(#[trigger] lookups[i]) is Some,
    ensures
        resolved_entries(lookups).len() == lookups.len(),
        forall|i: int|
            0 <= i < lookups.len() ==> resolved(lookups[i]) == Some(
                #[trigger] resolved_entries(lookups)[i],
            ),
        forall|i: int|
            0 <= i < lookups.len() ==> (#[trigger] resolved_entries(lookups)[i]).path
                == lookups[i].path,
    decreases lookups.len(),
{
    if lookups.len() > 0 {
        let front = lookups.drop_last();
        assert forall|i: int| 0 <= i < front.len() implies resolved(
            #[trigger] front[i],
        ) is Some by {
            assert(front[i] == lookups[i]);
        }
        lemma_all_lookups_resolve(front);
        assert(resolved(lookups[lookups.len() - 1]) is Some);
        assert forall|i: int| 0 <= i < lookups.len() implies resolved(lookups[i]) == Some(
            #[trigger] resolved_entries(lookups)[i],
        ) by {
            if i < front.len() {
                assert(front[i] == lookups[i]);
                assert(resolved_entries(lookups)[i] == resolved_entries(front)[i]);
            }
        }
    }
}

/// Whether `positions` lists, in rising order, exactly the positions of the
/// lookups that resolve, and `entries` holds the entry of each of them in
/// turn.
pub open spec fn is_selection(
    positions: Seq<int>,
    lookups: Seq<LookupView>,
    entries: Seq<EntryView>,
) -> bool {
    &&& positions.len() == entries.len()
    &&& forall|k: int|
        0 <= k < positions.len() ==> 0 <= #[trigger] positions[k] < lookups.len() && resolved(
            lookups[positions[k]],
        ) == Some(entries[k])
    &&& forall|k: int, m: int|
        0 <= k < m < positions.len() ==> #[trigger] positions[k] < #[trigger] positions[m]
    &&& forall|j: int|
        0 <= j < lookups.len() && resolved(#[trigger] lookups[j]) is Some
            ==> positions.contains(j)
}

/// The entries are exactly those of the lookups that resolve, each once, in
/// the relative order of the lookups.
pub proof fn lemma_resolved_entries_keep_order(lookups: Seq<LookupView>) -> (positions: Seq<int>)
    ensures
        is_selection(positions, lookups, resolved_entries(lookups)),
    decreases lookups.len(),
{
    if lookups.len() == 0 {
        Seq::empty()
    } else {
        let front = lookups.drop_last();
        let last = lookups.last();
        let earlier = lemma_resolved_entries_keep_order(front);
        assert(lookups == front.push(last));
        lemma_resolved_entries_push(front, last);
        let positions = match resolved(last) {
            Some(_) => earlier.push(front.len() as int),
            None => earlier,
        };
        let entries = resolved_entries(lookups);
        assert forall|k: int| 0 <= k < positions.len() implies 0 <= #[trigger] positions[k]
            < lookups.len() && resolved(lookups[positions[k]]) == Some(entries[k]) by {
            if k < earlier.len() {
                assert(positions[k] == earlier[k]);
                assert(lookups[earlier[k]] == front[earlier[k]]);
            }
        }
        assert forall|j: int|
            0 <= j < lookups.len() && resolved(
                #[trigger] lookups[j],
            ) is Some implies positions.contains(j) by {
            if j < front.len() {
                assert(front[j] == lookups[j]);
                assert(earlier.contains(j));
                let k = choose|k: int| 0 <= k < earlier.len() && earlier[k] == j;
                assert(positions[k] == j);
            } else {
                assert(positions[positions.len() - 1] == j);
            }
        }
        positions
    }
}

/// Listing a directory and resolving its children fails exactly where the
/// listing failed, and otherwise gives what resolving the children gives.
pub proof fn lemma_directory_entries(listing: Result<Seq<LookupView>, IoFailureView>)
    ensures
        directory_entries(listing) is Ok <==> listing is Ok,
        listing matches Ok(children) ==> directory_entries(listing) == Ok::<
            Seq<EntryView>,
            EntryErrorView,
        >(resolved_entries(children)),
        listing matches Err(failure) ==> directory_entries(listing) == Err::<
            Seq<EntryView>,
            EntryErrorView,
        >(EntryErrorView::Io(failure)),
{
}

/// The parent of a path resolves to an entry whose path is that parent, and
/// a path without a parent fails with the parent-not-found error whatever
/// the metadata query gave.
pub proof fn lemma_parent_entry(path: Seq<char>, parent_stat: Result<FileStat, IoFailureView>)
    ensures
        parent_of(path) is None <==> parent_entry(path, parent_stat) == Err::<
            EntryView,
            EntryErrorView,
        >(EntryErrorView::ParentNotFound),
        parent_entry(path, parent_stat) matches Ok(entry) ==> parent_of(path) == Some(entry.path),
        parent_of(path) matches Some(dir) ==> parent_entry(path, parent_stat) == resolve(
            dir,
            parent_stat,
        ),
{
}

} // verus!
