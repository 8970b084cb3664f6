use file_entries::{
    entry_of_parent, get_entries, get_entries_for_paths, get_entry, get_parent_entry, parent_path,
    Entry, EntryError, EntryType, FileStat, FileTime, IoErrorKind, IoFailure, Lookup,
};

fn stat(is_file: bool, is_dir: bool, len: u64) -> FileStat {
    let time = FileTime::SinceEpoch { secs: 1_600_000_000, nanos: 500_000_000 };
    FileStat { is_file, is_dir, len, created: time, accessed: time, modified: time }
}

fn file(path: &str, len: u64) -> Lookup {
    Lookup { path: path.to_string(), stat: Ok(stat(true, false, len)) }
}

fn dir(path: &str) -> Lookup {
    Lookup { path: path.to_string(), stat: Ok(stat(false, true, 4096)) }
}

fn missing(path: &str) -> Lookup {
    Lookup { path: path.to_string(), stat: Err(failure(IoErrorKind::NotFound)) }
}

fn failure(kind: IoErrorKind) -> IoFailure {
    IoFailure { kind, message: "the operating system said no".to_string() }
}

fn paths(entries: &[Entry]) -> Vec<String> {
    entries.iter().map(|e| e.path.clone()).collect()
}

#[test]
fn no_paths_give_no_entries() {
    assert_eq!(get_entries_for_paths(Vec::new()), Ok(Vec::new()));
}

#[test]
fn valid_and_invalid_paths_give_the_valid_ones_in_order() {
    let lookups = vec![
        file("/data/a.txt", 1),
        missing("/data/gone"),
        dir("/data/sub"),
        Lookup { path: "/dev/tty".to_string(), stat: Ok(stat(false, false, 0)) },
        file("relative.txt", 2),
        dir("/"),
        file("/data/z.txt", 26),
    ];
    let entries = get_entries_for_paths(lookups).unwrap();
    assert_eq!(paths(&entries), vec!["/data/a.txt", "/data/sub", "/data/z.txt"]);
    assert_eq!(entries[0], get_entry("/data/a.txt", Ok(stat(true, false, 1))).unwrap());
    assert_eq!(entries[1], get_entry("/data/sub", Ok(stat(false, true, 4096))).unwrap());
    assert_eq!(entries[2], get_entry("/data/z.txt", Ok(stat(true, false, 26))).unwrap());
    assert_eq!(entries[1].size, 0);
    assert_eq!(entries[2].size, 26);
}

#[test]
fn only_invalid_paths_give_no_entries() {
    let lookups = vec![missing("/a"), missing("/b"), file("c", 1)];
    assert_eq!(get_entries_for_paths(lookups), Ok(Vec::new()));
}

#[test]
fn missing_path_is_absent_from_the_batch() {
    let with = get_entries_for_paths(vec![file("/x/1", 1), missing("/x/2"), file("/x/3", 3)]);
    let without = get_entries_for_paths(vec![file("/x/1", 1), file("/x/3", 3)]);
    assert_eq!(with, without);
    assert_eq!(with.unwrap().len(), 2);
}

#[test]
fn a_path_given_twice_is_resolved_twice() {
    let entries =
        get_entries_for_paths(vec![file("/x/1", 1), file("/x/2", 2), file("/x/1", 1)]).unwrap();
    assert_eq!(paths(&entries), vec!["/x/1", "/x/2", "/x/1"]);
    assert_eq!(entries[0], entries[2]);
}

#[test]
fn resolving_in_two_parts_gives_the_same_entries() {
    let whole = get_entries_for_paths(vec![
        file("/p/1", 1),
        missing("/p/2"),
        dir("/p/3"),
        file("/p/4", 4),
    ])
    .unwrap();
    let mut parts = get_entries_for_paths(vec![file("/p/1", 1), missing("/p/2")]).unwrap();
    parts.extend(get_entries_for_paths(vec![dir("/p/3"), file("/p/4", 4)]).unwrap());
    assert_eq!(whole, parts);
}

#[test]
fn directory_with_files_and_subdirectories() {
    let children = vec![
        file("/srv/site/index.html", 120),
        dir("/srv/site/css"),
        file("/srv/site/.hidden", 0),
        dir("/srv/site/img"),
        file("/srv/site/robots.txt", 24),
    ];
    let entries = get_entries(Ok(children)).unwrap();
    assert_eq!(entries.len(), 3 + 2);
    assert_eq!(
        paths(&entries),
        vec![
            "/srv/site/index.html",
            "/srv/site/css",
            "/srv/site/.hidden",
            "/srv/site/img",
            "/srv/site/robots.txt",
        ]
    );
    let names: Vec<&str> = entries.iter().map(|e| e.name.as_str()).collect();
    assert_eq!(names, vec!["index.html", "css", ".hidden", "img", "robots.txt"]);
    let types: Vec<EntryType> = entries.iter().map(|e| e.entry_type).collect();
    assert_eq!(
        types,
        vec![
            EntryType::File,
            EntryType::Directory,
            EntryType::File,
            EntryType::Directory,
            EntryType::File,
        ]
    );
}

#[test]
fn empty_directory_has_no_entries() {
    assert_eq!(get_entries(Ok(Vec::new())), Ok(Vec::new()));
}

#[test]
fn child_that_fails_is_left_out_of_the_directory() {
    let entries = get_entries(Ok(vec![file("/d/a", 1), missing("/d/b"), dir("/d/c")])).unwrap();
    assert_eq!(paths(&entries), vec!["/d/a", "/d/c"]);
}

#[test]
fn failed_listing_fails_the_whole_call() {
    for kind in [
        IoErrorKind::NotFound,
        IoErrorKind::NotADirectory,
        IoErrorKind::PermissionDenied,
        IoErrorKind::Other,
    ] {
        let error = get_entries(Err(failure(kind))).unwrap_err();
        assert_eq!(error, EntryError::Io(failure(kind)));
        assert_eq!(error.message(), "the operating system said no");
        assert_eq!(error.is_not_found(), kind == IoErrorKind::NotFound);
    }
}

#[test]
fn parent_of_a_path_two_levels_deep() {
    assert_eq!(parent_path("/home/user/notes.txt"), Ok("/home/user".to_string()));
    let entry = get_parent_entry("/home/user/notes.txt", Ok(stat(false, true, 4096))).unwrap();
    assert_eq!(entry.path, "/home/user");
    assert_eq!(entry.name, "user");
    assert_eq!(entry.url, "file:///home/user");
    assert_eq!(entry.entry_type, EntryType::Directory);
    assert_eq!(entry.size, 0);
}

#[test]
fn parent_of_a_directory_two_levels_deep() {
    let entry = get_parent_entry("/a/b", Ok(stat(false, true, 0))).unwrap();
    assert_eq!(entry.path, "/a");
    assert_eq!(entry.name, "a");
}

#[test]
fn root_has_no_parent() {
    assert_eq!(parent_path("/"), Err(EntryError::ParentNotFound));
    assert_eq!(
        get_parent_entry("/", Ok(stat(false, true, 4096))),
        Err(EntryError::ParentNotFound)
    );
    assert_eq!(
        get_parent_entry("/", Err(failure(IoErrorKind::NotFound))),
        Err(EntryError::ParentNotFound)
    );
}

#[test]
fn empty_path_has_no_parent() {
    assert_eq!(parent_path(""), Err(EntryError::ParentNotFound));
    assert_eq!(
        get_parent_entry("", Err(failure(IoErrorKind::NotFound))),
        Err(EntryError::ParentNotFound)
    );
}

#[test]
fn parent_of_a_path_one_level_deep_is_the_root() {
    assert_eq!(parent_path("/etc"), Ok("/".to_string()));
    // the root has no final component, so it has no entry
    assert_eq!(
        get_parent_entry("/etc", Ok(stat(false, true, 4096))),
        Err(EntryError::InvalidFileName)
    );
}

#[test]
fn parent_of_a_bare_name_is_the_empty_path() {
    assert_eq!(parent_path("notes.txt"), Ok(String::new()));
    let error = get_parent_entry("notes.txt", Err(failure(IoErrorKind::NotFound))).unwrap_err();
    assert!(error.is_not_found());
}

#[test]
fn parent_that_cannot_be_queried_fails_with_that_failure() {
    let error =
        get_parent_entry("/gone/dir/file", Err(failure(IoErrorKind::NotFound))).unwrap_err();
    assert_eq!(error, EntryError::Io(failure(IoErrorKind::NotFound)));
}

#[test]
fn parent_entry_is_the_entry_of_the_parent_path() {
    let path = "/var/lib/app/state.db";
    let parent = parent_path(path).unwrap();
    assert_eq!(
        get_parent_entry(path, Ok(stat(false, true, 64))),
        get_entry(&parent, Ok(stat(false, true, 64)))
    );
}

#[test]
fn entry_of_parent_needs_a_parent() {
    assert_eq!(
        entry_of_parent(None, Ok(stat(false, true, 0))),
        Err(EntryError::ParentNotFound)
    );
    let entry = entry_of_parent(Some("/a/b".to_string()), Ok(stat(false, true, 0))).unwrap();
    assert_eq!(entry.path, "/a/b");
    assert_eq!(entry.name, "b");
}
