use firefly_hal::errors::FSError;
use firefly_hal::fat::{bytes_eq, find_short_name, visible_entries, DirEntryInfo};
use firefly_hal::shortname::{is_short_name, trim_ascii};

fn entry(base: &str, ext: &str, long: Option<&str>, is_dir: bool) -> DirEntryInfo {
    DirEntryInfo {
        base: base.as_bytes().to_vec(),
        ext: ext.as_bytes().to_vec(),
        long: long.map(|l| l.as_bytes().to_vec()),
        is_dir,
    }
}

#[test]
fn short_names_in_83_form_pass() {
    assert!(is_short_name(b"HELLO.TXT"));
    assert!(is_short_name(b"hello.txt"));
    assert!(is_short_name(b"12345678.TXT"));
    assert!(is_short_name(b"1.C"));
    assert!(is_short_name(b"HELLO."));
    assert!(is_short_name(b"NOEXT"));
    assert!(is_short_name(b"SAVEDA~1.TXT"));
    // The empty name and the dot names stand for this and the parent
    // directory.
    assert!(is_short_name(b""));
    assert!(is_short_name(b"."));
    assert!(is_short_name(b".."));
}

#[test]
fn long_names_fail_the_83_form() {
    assert!(!is_short_name(b"Save Data.txt")); // space
    assert!(!is_short_name(b" "));
    assert!(!is_short_name(b"123456789")); // nine base bytes
    assert!(!is_short_name(b"12345678.ABCD")); // four extension bytes
    assert!(!is_short_name(b"a/b"));
    assert!(!is_short_name(b"a*b"));
    assert!(!is_short_name(b"caf\xc3\xa9")); // outside ASCII
    assert!(!is_short_name(b".hidden")); // period before any base byte
    assert!(!is_short_name(b"a.b.c")); // second period past the base
}

#[test]
fn trim_strips_ascii_whitespace_only_at_the_ends() {
    assert_eq!(trim_ascii(b"  Save Data.txt \t"), b"Save Data.txt".to_vec());
    assert_eq!(trim_ascii(b"x"), b"x".to_vec());
    assert_eq!(trim_ascii(b" \t\r\n"), Vec::<u8>::new());
    assert_eq!(trim_ascii(b""), Vec::<u8>::new());
}

#[test]
fn bytes_eq_compares_exactly() {
    assert!(bytes_eq(b"abc", b"abc"));
    assert!(!bytes_eq(b"abc", b"abd"));
    assert!(!bytes_eq(b"abc", b"ab"));
    assert!(bytes_eq(b"", b""));
}

#[test]
fn find_short_name_matches_trimmed_long_name() {
    let entries = vec![
        entry(".", "", None, true),
        entry("..", "", None, true),
        entry("README", "MD", None, false),
        entry("SAVEDA~1", "TXT", Some("Save Data.txt "), false),
        entry("SAVEDA~2", "TXT", Some("Save Data.txt"), false),
    ];
    // The first matching entry wins, and its 8.3 name comes back.
    let r = find_short_name(&entries, b"Save Data.txt").unwrap();
    assert_eq!(r, b"SAVEDA~1.TXT".to_vec());
}

#[test]
fn find_short_name_is_case_sensitive() {
    let entries = vec![entry("SAVEDA~1", "TXT", Some("Save Data.txt"), false)];
    assert_eq!(
        find_short_name(&entries, b"save data.txt"),
        Err(FSError::NotFound)
    );
}

#[test]
fn find_short_name_ignores_entries_without_long_names() {
    let entries = vec![entry("README", "MD", None, false)];
    assert_eq!(find_short_name(&entries, b"README.MD"), Err(FSError::NotFound));
    assert_eq!(find_short_name(&entries, b"anything"), Err(FSError::NotFound));
}

#[test]
fn short_display_writes_the_83_name_out() {
    assert_eq!(
        entry("SAVEDA~1", "TXT", None, false).short_display(),
        b"SAVEDA~1.TXT".to_vec()
    );
    assert_eq!(entry("NOEXT", "", None, true).short_display(), b"NOEXT".to_vec());
}

#[test]
fn display_name_prefers_the_trimmed_long_name() {
    assert_eq!(
        entry("SAVEDA~1", "TXT", Some(" Save Data.txt "), false).display_name(),
        b"Save Data.txt".to_vec()
    );
    assert_eq!(entry("README", "MD", None, false).display_name(), b"README".to_vec());
}

#[test]
fn visible_entries_drop_dot_entries() {
    let entries = vec![
        entry(".", "", None, true),
        entry("..", "", None, true),
        entry("ROMS", "", None, true),
        entry("SAVEDA~1", "TXT", Some("Save Data.txt"), false),
    ];
    let visible = visible_entries(entries);
    assert_eq!(visible.len(), 2);
    assert_eq!(visible[0].base, b"ROMS".to_vec());
    assert_eq!(visible[1].base, b"SAVEDA~1".to_vec());
    assert!(visible.iter().all(|e| e.base.first() != Some(&b'.')));
}

#[test]
fn entry_kind_follows_the_directory_bit() {
    assert_eq!(
        entry("ROMS", "", None, true).kind(),
        firefly_hal::EntryKind::Dir
    );
    assert_eq!(
        entry("A", "BIN", None, false).kind(),
        firefly_hal::EntryKind::File
    );
}
