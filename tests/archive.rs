use mtgoupdater::archive::{file_name, is_price_history_name, read_entries, Archive, ArchiveError, Archived};
use std::io::Cursor;
use std::io::Read;

fn build(location: &str, files: &[(&str, &[u8], bool)]) -> (Archive<Archived>, Vec<u8>) {
    let mut pending = Archive::new(location);
    let mut contents = Vec::new();
    for (path, data, delete) in files {
        if *delete {
            pending.move_file(path.to_string());
        } else {
            pending.add_file(path.to_string());
        }
        contents.push(Some(data.to_vec()));
    }
    pending.archive(contents).expect("building the container failed")
}

fn names_and_contents(bytes: &[u8]) -> Vec<(String, Vec<u8>)> {
    read_entries(bytes.to_vec()).expect("reading the container failed")
}

/// The stored (compressed) bytes of every entry, read with the zip crate.
fn raw_entries(bytes: &[u8]) -> Vec<(String, Vec<u8>)> {
    let mut zip = zip::ZipArchive::new(Cursor::new(bytes.to_vec())).expect("not a zip container");
    let mut out = Vec::new();
    for i in 0..zip.len() {
        let mut file = zip.by_index_raw(i).expect("missing entry");
        let mut raw = Vec::new();
        file.read_to_end(&mut raw).expect("unreadable entry");
        out.push((file.name().to_string(), raw));
    }
    out
}

#[test]
fn test_archive_compression() {
    let file_contents: String = "1234567891011121314".repeat(10);
    let expect_unzipped_size: usize = file_contents.len();
    const EXPECT_ARCHIVE_SIZE: usize = 175;

    let (archived, bytes) = build("tmp/test.zip", &[("tmp/test.txt", file_contents.as_bytes(), false)]);
    assert_eq!(archived.location(), "tmp/test.zip");

    let entries = names_and_contents(&bytes);
    let zipped_file_contents = String::from_utf8(entries[0].1.clone()).unwrap();
    assert_eq!(file_contents, zipped_file_contents);
    assert_eq!(bytes.len(), EXPECT_ARCHIVE_SIZE);
    assert_eq!(zipped_file_contents.len(), expect_unzipped_size);
}

#[test]
fn test_archive() {
    let file_contents: String = "1234567891011121314".repeat(10);
    let (archived, bytes) = build("tmp/test.zip", &[("tmp/test.txt", file_contents.as_bytes(), false)]);
    assert_eq!(archived.get_location(), "tmp/test.zip");
    assert_eq!(archived.get_files(), vec!["tmp/test.txt".to_string()]);
    let entries = names_and_contents(&bytes);
    assert_eq!(entries.len(), 1);
    assert_eq!(entries[0].0, "test.txt");
    assert_eq!(String::from_utf8(entries[0].1.clone()).unwrap(), file_contents);
    assert_eq!(bytes.len(), 175);
}

#[test]
fn test_move_to_archive() {
    let (archived, bytes) = build("dir_a/archive.zip", &[("dir_a/f1.txt", b"f1 contents", false)]);
    let new_files = vec!["dir_b/f2.txt".to_string(), "dir_b/f3.txt".to_string()];
    let contents = vec![Some(b"f2 contents".to_vec()), Some(b"f3 contents".to_vec())];
    let (merged, remove) = archived
        .move_to_archive(&bytes, &new_files, &contents)
        .expect("Failed to move files to archive");
    let entries = names_and_contents(&merged);
    assert_eq!(
        entries,
        vec![
            ("f1.txt".to_string(), b"f1 contents".to_vec()),
            ("f2.txt".to_string(), b"f2 contents".to_vec()),
            ("f3.txt".to_string(), b"f3 contents".to_vec()),
        ]
    );
    assert_eq!(remove, new_files);
}

#[test]
fn build_two_kept_files() {
    let (archived, bytes) = build("out/a.zip", &[("in/f1.txt", b"abc", false), ("in/f2.txt", b"defg", false)]);
    assert_eq!(
        names_and_contents(&bytes),
        vec![("f1.txt".to_string(), b"abc".to_vec()), ("f2.txt".to_string(), b"defg".to_vec())]
    );
    assert!(archived.files_to_delete().is_empty());
}

#[test]
fn round_trip_of_binary_contents() {
    let big: Vec<u8> = (0..5000u32).map(|i| (i * 7 % 251) as u8).collect();
    let files: Vec<(&str, &[u8], bool)> = vec![
        ("a/empty.bin", &[], false),
        ("a/zeros.bin", &[0, 0, 0, 0], true),
        ("b/big.bin", &big, false),
        ("c\\windows.json", b"{\"name\":\"Test1\"}", true),
    ];
    let (_, bytes) = build("x.zip", &files);
    let entries = names_and_contents(&bytes);
    assert_eq!(entries.len(), 4);
    assert_eq!(entries[0], ("empty.bin".to_string(), vec![]));
    assert_eq!(entries[1], ("zeros.bin".to_string(), vec![0, 0, 0, 0]));
    assert_eq!(entries[2], ("big.bin".to_string(), big.clone()));
    assert_eq!(entries[3], ("windows.json".to_string(), b"{\"name\":\"Test1\"}".to_vec()));
}

#[test]
fn deletion_policy_names_moved_files_only() {
    let (archived, _) = build(
        "p.zip",
        &[("k1.txt", b"1", false), ("d1.txt", b"2", true), ("k2.txt", b"3", false), ("d2.txt", b"4", true)],
    );
    assert_eq!(archived.files_to_delete(), vec!["d1.txt".to_string(), "d2.txt".to_string()]);
}

#[test]
fn merge_keeps_stored_bytes_of_old_entries() {
    let (archived, bytes) = build(
        "m.zip",
        &[("one.json", b"{\"name\":\"Test1\"}", false), ("two.json", &[9u8; 300], false)],
    );
    let before = raw_entries(&bytes);
    let new_files = vec!["new/three.json".to_string()];
    let merged = archived
        .add_to_archive(&bytes, &new_files, &vec![Some(b"{\"name\":\"Test3\"}".to_vec())])
        .unwrap();
    let after = raw_entries(&merged);
    assert_eq!(after.len(), 3);
    assert_eq!(after[..2], before[..]);
    assert_eq!(names_and_contents(&merged)[2], ("three.json".to_string(), b"{\"name\":\"Test3\"}".to_vec()));
}

#[test]
fn merging_nothing_keeps_entries() {
    let (archived, bytes) = build("n.zip", &[("a.txt", b"first", false), ("b.txt", b"second", false)]);
    let merged = archived.add_to_archive(&bytes, &vec![], &vec![]).unwrap();
    assert_eq!(raw_entries(&merged), raw_entries(&bytes));
    assert_eq!(names_and_contents(&merged), names_and_contents(&bytes));
}

#[test]
fn merge_with_missing_file_fails_and_keeps_container() {
    let (archived, bytes) = build("c.zip", &[("a.txt", b"kept", false)]);
    let before = bytes.clone();
    let new_files = vec!["present.txt".to_string(), "missing.txt".to_string()];
    let result = archived.add_to_archive(&bytes, &new_files, &vec![Some(b"here".to_vec()), None]);
    assert_eq!(result, Err(ArchiveError::SourceUnreadable("missing.txt".to_string())));
    assert_eq!(bytes, before);
    assert_eq!(names_and_contents(&bytes), vec![("a.txt".to_string(), b"kept".to_vec())]);
}

#[test]
fn build_with_unreadable_source_fails() {
    let mut pending = Archive::new("u.zip");
    pending.add_file("a.txt".to_string());
    pending.move_file("gone.txt".to_string());
    let result = pending.archive(vec![Some(b"a".to_vec()), None]);
    assert_eq!(result.err(), Some(ArchiveError::SourceUnreadable("gone.txt".to_string())));
}

#[test]
fn build_rejects_duplicate_names() {
    let mut pending = Archive::new("d.zip");
    pending.add_file("x/same.txt".to_string());
    pending.add_file("y/same.txt".to_string());
    let result = pending.archive(vec![Some(b"1".to_vec()), Some(b"2".to_vec())]);
    assert_eq!(result.err(), Some(ArchiveError::DuplicateName("same.txt".to_string())));
}

#[test]
fn build_rejects_path_without_name() {
    let mut pending = Archive::new("e.zip");
    pending.add_file("somewhere/".to_string());
    let result = pending.archive(vec![Some(b"1".to_vec())]);
    assert_eq!(result.err(), Some(ArchiveError::InvalidFileName("somewhere/".to_string())));
}

#[test]
fn merge_rejects_name_already_in_container() {
    let (archived, bytes) = build("f.zip", &[("old/a.txt", b"1", false)]);
    let result = archived.add_to_archive(&bytes, &vec!["new/a.txt".to_string()], &vec![Some(b"2".to_vec())]);
    assert_eq!(result, Err(ArchiveError::DuplicateName("a.txt".to_string())));
}

#[test]
fn merge_into_corrupt_container_fails() {
    let archived = Archive::init("bad.zip");
    let garbage = b"this is not a zip container".to_vec();
    let result = archived.add_to_archive(&garbage, &vec!["a.txt".to_string()], &vec![Some(b"1".to_vec())]);
    assert_eq!(result, Err(ArchiveError::CorruptContainer));
    assert_eq!(read_entries(garbage), Err(ArchiveError::CorruptContainer));
}

#[test]
fn init_holds_location_and_no_files() {
    let archived = Archive::init("data/prices.zip");
    assert_eq!(archived.location(), "data/prices.zip");
    assert!(archived.get_files().is_empty());
    assert!(archived.files_to_delete().is_empty());
    assert_eq!(archived.temp_location(), "data/prices.zip.tmp");
}

#[test]
fn pending_archive_lists_registered_paths() {
    let mut pending = Archive::new("z.zip");
    pending.add_file("a".to_string());
    pending.move_file("b/c".to_string());
    assert_eq!(pending.file_paths(), vec!["a".to_string(), "b/c".to_string()]);
}

#[test]
fn file_name_strips_directories() {
    assert_eq!(file_name("a/b/c.txt"), "c.txt");
    assert_eq!(file_name("c:\\prices\\mtgo-cards_2020-11-06T083944Z.json"), "mtgo-cards_2020-11-06T083944Z.json");
    assert_eq!(file_name("plain.json"), "plain.json");
    assert_eq!(file_name("dir/"), "");
    assert_eq!(file_name(""), "");
    assert_eq!(file_name("a/.."), "");
    assert_eq!(file_name(".."), "");
    assert_eq!(file_name("b/."), "");
    assert_eq!(file_name("a/..b"), "..b");
}

#[test]
fn build_rejects_parent_and_current_directory() {
    let mut pending = Archive::new("g.zip");
    pending.add_file("x/..".to_string());
    let result = pending.archive(vec![Some(b"1".to_vec())]);
    assert_eq!(result.err(), Some(ArchiveError::InvalidFileName("x/..".to_string())));
    let mut pending = Archive::new("h.zip");
    pending.add_file("ok.txt".to_string());
    pending.add_file(".".to_string());
    let result = pending.archive(vec![Some(b"1".to_vec()), Some(b"2".to_vec())]);
    assert_eq!(result.err(), Some(ArchiveError::InvalidFileName(".".to_string())));
}

#[test]
fn merge_rejects_entry_running_past_the_end() {
    let (archived, mut bytes) = build("w.zip", &[("a.txt", b"some contents", false)]);
    // Declare a compressed size in the central directory that the container
    // cannot hold.
    let central = bytes
        .windows(4)
        .position(|w| w == [0x50, 0x4b, 0x01, 0x02])
        .expect("no central directory header");
    bytes[central + 20..central + 24].copy_from_slice(&0x00ff_ff00u32.to_le_bytes());
    let result = archived.add_to_archive(&bytes, &vec!["b.txt".to_string()], &vec![Some(b"2".to_vec())]);
    assert_eq!(result, Err(ArchiveError::CorruptContainer));
}

#[test]
fn price_history_names() {
    assert!(is_price_history_name("mtgo-cards_2020-11-06T083944Z.json"));
    assert!(!is_price_history_name("mtgo-cards"));
    assert!(!is_price_history_name("card-definitions.json"));
}

#[test]
fn build_rejects_name_with_control_character() {
    let mut pending = Archive::new("k.zip");
    pending.add_file("dir/PK\u{6}\u{7}abcdefghijklmnop".to_string());
    let result = pending.archive(vec![Some(b"1".to_vec())]);
    assert_eq!(
        result.err(),
        Some(ArchiveError::InvalidFileName("dir/PK\u{6}\u{7}abcdefghijklmnop".to_string()))
    );
}

#[test]
fn corrupt_container_is_reported_before_missing_file() {
    let archived = Archive::init("bad.zip");
    let garbage = b"not a zip container at all".to_vec();
    let result = archived.add_to_archive(&garbage, &vec!["missing.txt".to_string()], &vec![None]);
    assert_eq!(result, Err(ArchiveError::CorruptContainer));
}

#[test]
fn built_container_merges_twice() {
    let (archived, bytes) = build("t.zip", &[("Cargo.toml", b"[package]", false), ("Cargo.lock", b"# lock", false)]);
    let merged = archived
        .add_to_archive(&bytes, &vec!["README.md".to_string()], &vec![Some(b"# readme".to_vec())])
        .unwrap();
    let merged = archived.add_to_archive(&merged, &vec![], &vec![]).unwrap();
    assert_eq!(
        names_and_contents(&merged),
        vec![
            ("Cargo.toml".to_string(), b"[package]".to_vec()),
            ("Cargo.lock".to_string(), b"# lock".to_vec()),
            ("README.md".to_string(), b"# readme".to_vec()),
        ]
    );
}
