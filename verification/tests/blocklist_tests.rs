use pprof::blocklist::contains_substring;
use pprof::blocklist::is_name_blocked;
use pprof::blocklist::resolve_blocklist;
use pprof::blocklist::LibraryInfo;

#[test]
fn contains_substring_basic_cases() {
    assert!(contains_substring("hello", "ell"));
    assert!(contains_substring("hello", "hello"));
    assert!(contains_substring("hello", "lo"));
    assert!(contains_substring("hello", "h"));
    assert!(contains_substring("hello", ""));
    assert!(contains_substring("", ""));
    assert!(!contains_substring("hello", "xyz"));
    assert!(!contains_substring("hello", "helloo"));
    assert!(!contains_substring("", "a"));
}

#[test]
fn name_blocked_by_any_fragment() {
    let fragments = vec![String::from("libc"), String::from("pthread")];
    assert!(is_name_blocked("/usr/lib/libc-2.31.so", &fragments));
    assert!(is_name_blocked("/lib/libpthread.so.0", &fragments));
    assert!(!is_name_blocked("/usr/lib/libm.so", &fragments));
    assert!(!is_name_blocked("/usr/lib/libm.so", &Vec::new()));
}

#[test]
fn resolve_blocklist_keeps_matching_segments() {
    let libs = vec![
        LibraryInfo {
            name: String::from("/usr/lib/libc-2.31.so"),
            segments: vec![(100, 50), (400, 10)],
        },
        LibraryInfo { name: String::from("/usr/lib/libfoo.so"), segments: vec![(1000, 24)] },
        LibraryInfo { name: String::from("/usr/lib/libc++.so"), segments: vec![(2000, 8)] },
    ];
    let blocklist = vec![String::from("libc")];
    let ranges = resolve_blocklist(&blocklist, &libs);
    assert_eq!(ranges, vec![(100, 150), (400, 410), (2000, 2008)]);

    let nothing = resolve_blocklist(&vec![String::from("zlib")], &libs);
    assert!(nothing.is_empty());
}

#[test]
fn resolve_blocklist_saturates_segment_end() {
    let libs = vec![LibraryInfo {
        name: String::from("edge.so"),
        segments: vec![(usize::MAX - 4, 100)],
    }];
    let ranges = resolve_blocklist(&vec![String::from("edge")], &libs);
    assert_eq!(ranges, vec![(usize::MAX - 4, usize::MAX)]);
}
