use fileutil::FileUtil;
use fileutil::FsError;

#[test]
fn uri_round_trip_plain() {
    let uri = FileUtil::to_uri_path("/tmp/foo.txt").unwrap();
    assert_eq!(uri, "file:///tmp/foo.txt");
    assert_eq!(FileUtil::from_uri_path(&uri).unwrap(), "/tmp/foo.txt");
}

#[test]
fn uri_round_trip_space() {
    let uri = FileUtil::to_uri_path("/tmp/some file.txt").unwrap();
    assert_eq!(uri, "file:///tmp/some%20file.txt");
    assert_eq!(FileUtil::from_uri_path(&uri).unwrap(), "/tmp/some file.txt");
}

#[test]
fn uri_round_trip_non_ascii() {
    let uri = FileUtil::to_uri_path("/tmp/p\u{e4}ev.txt").unwrap();
    assert_eq!(FileUtil::from_uri_path(&uri).unwrap(), "/tmp/p\u{e4}ev.txt");
}

#[test]
fn uri_round_trip_root() {
    let uri = FileUtil::to_uri_path("/").unwrap();
    assert_eq!(uri, "file:///");
    assert_eq!(FileUtil::from_uri_path(&uri).unwrap(), "/");
}

#[test]
fn uri_round_trip_reserved_characters() {
    let uri = FileUtil::to_uri_path("/tmp/a#b.txt").unwrap();
    assert_eq!(uri, "file:///tmp/a%23b.txt");
    assert_eq!(FileUtil::from_uri_path(&uri).unwrap(), "/tmp/a#b.txt");

    let uri = FileUtil::to_uri_path("/tmp/100%.txt").unwrap();
    assert_eq!(uri, "file:///tmp/100%25.txt");
    assert_eq!(FileUtil::from_uri_path(&uri).unwrap(), "/tmp/100%.txt");
}

#[test]
fn uri_conversion_normalizes_dot_dot_segments() {
    // a path with a `..` segment is not round-trippable: the URI parser
    // collapses the segment, so the path comes back normalized
    let uri = FileUtil::to_uri_path("/a/../b").unwrap();
    assert_eq!(FileUtil::from_uri_path(&uri).unwrap(), "/b");
}

#[test]
fn uri_round_trip_drive_colon_segment() {
    let uri = FileUtil::to_uri_path("/c:/x").unwrap();
    assert_eq!(uri, "file:///c:/x");
    assert_eq!(FileUtil::from_uri_path(&uri).unwrap(), "/c:/x");
}

#[test]
fn from_uri_requires_the_file_scheme() {
    assert_eq!(
        FileUtil::from_uri_path("https://localhost/a.txt"),
        Err(FsError::InvalidInput)
    );
    assert_eq!(
        FileUtil::from_uri_path("file://localhost/a.txt").unwrap(),
        "/a.txt"
    );
}

#[test]
fn to_uri_rejects_relative_path() {
    assert_eq!(FileUtil::to_uri_path("foo/bar"), Err(FsError::InvalidInput));
    assert_eq!(FileUtil::to_uri_path(""), Err(FsError::InvalidInput));
}

#[test]
fn from_uri_rejects_malformed() {
    assert_eq!(FileUtil::from_uri_path("not a uri"), Err(FsError::InvalidInput));
    assert_eq!(FileUtil::from_uri_path(""), Err(FsError::InvalidInput));
}

#[test]
fn from_uri_rejects_wrong_scheme() {
    assert_eq!(
        FileUtil::from_uri_path("https://example.com/a.txt"),
        Err(FsError::InvalidInput)
    );
    assert_eq!(FileUtil::from_uri_path("mailto:someone"), Err(FsError::InvalidInput));
}

#[test]
fn temp_paths_distinct_and_in_order() {
    let mut fu = FileUtil::new(String::from("/tmp"));
    let a = fu.temp_file_name().unwrap();
    let b = fu.temp_file_name().unwrap();
    let c = fu.temp_file_name().unwrap();
    assert_ne!(a, b);
    assert_ne!(a, c);
    assert_ne!(b, c);
    assert!(a.starts_with("/tmp/tempfile_"));
    assert_eq!(a.chars().count(), "/tmp/tempfile_".chars().count() + 36);
    assert_eq!(fu.pending_count(), 3);
    assert_eq!(fu.take_front_temp_file(), Some(a));
    assert_eq!(fu.take_front_temp_file(), Some(b));
    assert_eq!(fu.take_front_temp_file(), Some(c));
    assert_eq!(fu.take_front_temp_file(), None);
}

#[test]
fn cleanup_of_never_materialized_paths_empties_the_list() {
    let mut fu = FileUtil::new(String::from("/tmp"));
    for _ in 0..5 {
        fu.temp_file_name().unwrap();
    }
    assert_eq!(fu.pending_count(), 5);
    while let Some(_p) = fu.take_front_temp_file() {}
    assert_eq!(fu.pending_count(), 0);
    assert_eq!(fu.take_front_temp_file(), None);
}

#[test]
fn new_tracker_is_empty() {
    let mut fu = FileUtil::new(String::from("/var/tmp"));
    assert_eq!(fu.pending_count(), 0);
    assert_eq!(fu.take_front_temp_file(), None);
}

#[test]
fn extension_matches_case_insensitively() {
    assert!(FileUtil::file_extension("report.PDF", &["pdf", "xml"]));
    assert!(!FileUtil::file_extension("report", &["pdf"]));
    assert!(FileUtil::file_extension("archive.tar.gz", &["gz"]));
}

#[test]
fn extension_corner_cases() {
    assert!(!FileUtil::file_extension(".gitignore", &["gitignore"]));
    assert!(!FileUtil::file_extension("a.txt", &[]));
    assert!(FileUtil::file_extension("/a/b/C.TxT", &["txt"]));
    assert!(!FileUtil::file_extension("a.tar.gz", &["tar"]));
}

#[test]
fn file_name_extracts_last_segment() {
    assert_eq!(FileUtil::file_name("/a/b/c.txt"), Some(String::from("c.txt")));
    assert_eq!(FileUtil::file_name("/"), None);
    assert_eq!(FileUtil::file_name("a/b/"), Some(String::from("b")));
    assert_eq!(FileUtil::file_name(""), None);
    assert_eq!(FileUtil::file_name("/a/.."), None);
}

#[test]
fn directory_extracts_parent() {
    assert_eq!(FileUtil::directory("/a/b/c.txt"), Some(String::from("/a/b")));
    assert_eq!(FileUtil::directory("/a"), Some(String::from("/")));
    assert_eq!(FileUtil::directory("a"), Some(String::from("")));
    assert_eq!(FileUtil::directory("/"), None);
    assert_eq!(FileUtil::directory(""), None);
}

#[test]
fn trailing_dot_segments_are_normalized() {
    assert_eq!(FileUtil::file_name("a/."), Some(String::from("a")));
    assert_eq!(FileUtil::directory("a/."), Some(String::from("")));
    assert_eq!(FileUtil::file_name("/a/b/."), Some(String::from("b")));
    assert_eq!(FileUtil::directory("/a/b/."), Some(String::from("/a")));
    assert_eq!(FileUtil::file_name("."), None);
    assert_eq!(FileUtil::directory("."), Some(String::from("")));
    assert!(FileUtil::file_extension("foo.txt/.", &["txt"]));
}

#[test]
fn join_path_concatenates() {
    assert_eq!(FileUtil::path("a", "b"), String::from("a/b"));
    assert_eq!(FileUtil::path("a/", "b"), String::from("a/b"));
    assert_eq!(FileUtil::path("/a/b", "c/d.txt"), String::from("/a/b/c/d.txt"));
    assert_eq!(FileUtil::path("a", "/b"), String::from("/b"));
    assert_eq!(FileUtil::path("", "b"), String::from("b"));
}

#[test]
fn encode_name_keeps_the_name() {
    assert_eq!(FileUtil::encode_name("doc.bdoc"), String::from("doc.bdoc"));
}

#[test]
fn hex_decodes_digit_pairs() {
    assert_eq!(FileUtil::hex_to_bin("48656c6c6f"), b"Hello".to_vec());
    assert_eq!(FileUtil::hex_to_bin("00ff10"), vec![0x00u8, 0xffu8, 0x10u8]);
    assert_eq!(FileUtil::hex_to_bin(""), Vec::<u8>::new());
}

#[test]
fn hex_drops_invalid_pairs_and_trailing_char() {
    assert_eq!(FileUtil::hex_to_bin("4g"), Vec::<u8>::new());
    assert_eq!(FileUtil::hex_to_bin("4g48"), vec![0x48u8]);
    assert_eq!(FileUtil::hex_to_bin("4"), Vec::<u8>::new());
    assert_eq!(FileUtil::hex_to_bin("AbC"), vec![0xabu8]);
}
