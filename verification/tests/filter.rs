use file_indexer::entry::{FileNode, ModifiedTime, RawEntry};
use file_indexer::filter::{classify, describe, filter_entries, filter_entry, Verdict};
use file_indexer::options::IndexOptions;

fn file(name: &str, size: u64) -> RawEntry {
    RawEntry {
        name: name.to_string(),
        path: format!("/root/{}", name),
        depth: 1,
        is_dir: false,
        size,
        modified: ModifiedTime::SinceEpoch(1_700_000_000),
    }
}

fn dir(name: &str, size: u64) -> RawEntry {
    RawEntry { is_dir: true, ..file(name, size) }
}

fn limit(max_file_size: Option<u64>) -> IndexOptions {
    IndexOptions { max_file_size, ..IndexOptions::default() }
}

#[test]
fn plain_file_is_accepted() {
    let options = IndexOptions::default();
    assert_eq!(classify(&file("a.txt", 5), &options), Verdict::Accepted);
    assert_eq!(classify(&file("Makefile", 0), &options), Verdict::Accepted);
}

#[test]
fn dangerous_extension_is_rejected_whatever_the_options() {
    let wide_open = IndexOptions {
        max_depth: None,
        max_file_size: None,
        follow_links: true,
        respect_gitignore: false,
    };
    for options in [IndexOptions::default(), wide_open, limit(Some(0))] {
        assert_eq!(classify(&file("tool.exe", 1), &options), Verdict::DangerousExtension);
        assert_eq!(classify(&file("LIB.DLL", 1), &options), Verdict::DangerousExtension);
        assert_eq!(classify(&dir("Photos.app", 0), &options), Verdict::DangerousExtension);
        assert_eq!(filter_entry(&file("libz.so", 1), &options), None);
    }
}

#[test]
fn first_rejecting_stage_decides() {
    let options = limit(Some(10));
    assert_eq!(classify(&file(".hidden.exe", 100), &options), Verdict::DangerousExtension);
    assert_eq!(classify(&file("big.bin", 100), &options), Verdict::DangerousExtension);
    assert_eq!(classify(&file(".big.txt", 100), &options), Verdict::TooLarge);
    assert_eq!(classify(&file(".small.txt", 10), &options), Verdict::Hidden);
    let mut root = file("tool.exe", 100);
    root.depth = 0;
    assert_eq!(classify(&root, &options), Verdict::OutOfDepth);
}

#[test]
fn size_limit_is_inclusive() {
    let options = limit(Some(100));
    assert_eq!(classify(&file("a.txt", 99), &options), Verdict::Accepted);
    assert_eq!(classify(&file("a.txt", 100), &options), Verdict::Accepted);
    assert_eq!(classify(&file("a.txt", 101), &options), Verdict::TooLarge);
    assert_eq!(classify(&file("a.txt", 0), &limit(Some(0))), Verdict::Accepted);
    assert_eq!(classify(&file("a.txt", 1), &limit(Some(0))), Verdict::TooLarge);
}

#[test]
fn default_size_limit_is_ten_mebibytes() {
    let options = IndexOptions::default();
    assert_eq!(classify(&file("a.iso", 10_485_760), &options), Verdict::Accepted);
    assert_eq!(classify(&file("a.iso", 10_485_761), &options), Verdict::TooLarge);
}

#[test]
fn no_size_limit_accepts_any_file_size() {
    assert_eq!(classify(&file("a.txt", u64::MAX), &limit(None)), Verdict::Accepted);
}

#[test]
fn directory_is_never_rejected_for_its_size() {
    assert_eq!(classify(&dir("src", u64::MAX), &limit(Some(0))), Verdict::Accepted);
    assert_eq!(classify(&dir("src", 4096), &limit(Some(1))), Verdict::Accepted);
    assert_eq!(classify(&dir(".cache", u64::MAX), &limit(Some(0))), Verdict::Hidden);
}

#[test]
fn hidden_entries_are_rejected_except_the_vcs_directory() {
    let options = IndexOptions::default();
    assert_eq!(classify(&file(".hidden", 3), &options), Verdict::Hidden);
    assert_eq!(classify(&file(".gitignore", 3), &options), Verdict::Hidden);
    assert_eq!(classify(&dir(".github", 0), &options), Verdict::Hidden);
    assert_eq!(classify(&dir(".git", 0), &options), Verdict::Accepted);
    let kept = filter_entry(&dir(".git", 4096), &options).unwrap();
    assert_eq!(kept.name, ".git");
    assert_eq!(kept.is_dir, true);
    assert_eq!(kept.file_type, None);
}

#[test]
fn vcs_name_on_an_oversized_file_is_rejected_for_size() {
    assert_eq!(classify(&file(".git", 11), &limit(Some(10))), Verdict::TooLarge);
    assert_eq!(classify(&file(".git", 10), &limit(Some(10))), Verdict::Accepted);
}

#[test]
fn root_and_too_deep_entries_are_out_of_depth() {
    let mut options = IndexOptions::default();
    options.max_depth = Some(0);
    let mut entry = file("a.txt", 1);
    entry.depth = 0;
    assert_eq!(classify(&entry, &options), Verdict::OutOfDepth);
    entry.depth = 1;
    assert_eq!(classify(&entry, &options), Verdict::Accepted);
    entry.depth = 2;
    assert_eq!(classify(&entry, &options), Verdict::OutOfDepth);
    options.max_depth = None;
    entry.depth = 1000;
    assert_eq!(classify(&entry, &options), Verdict::Accepted);
    entry.depth = 0;
    assert_eq!(classify(&entry, &options), Verdict::OutOfDepth);
}

#[test]
fn descriptor_copies_the_entry() {
    let entry = RawEntry {
        name: "Report.PDF".to_string(),
        path: "/data/docs/Report.PDF".to_string(),
        depth: 2,
        is_dir: false,
        size: 1234,
        modified: ModifiedTime::SinceEpoch(86_400),
    };
    let expected = FileNode {
        name: "Report.PDF".to_string(),
        path: "/data/docs/Report.PDF".to_string(),
        is_dir: false,
        size: 1234,
        modified: Some(86_400),
        file_type: Some("PDF".to_string()),
    };
    assert_eq!(describe(&entry), expected);
    assert_eq!(filter_entry(&entry, &IndexOptions::default()), Some(expected));
}

#[test]
fn descriptor_type_is_absent_without_extension_and_for_directories() {
    assert_eq!(describe(&file("Makefile", 1)).file_type, None);
    assert_eq!(describe(&file("notes.", 1)).file_type, Some(String::new()));
    assert_eq!(describe(&dir("conf.d", 0)).file_type, None);
    assert_eq!(describe(&dir("src", 0)).file_type, None);
}

#[test]
fn descriptor_time_is_absent_when_unknown_or_before_epoch() {
    let mut entry = file("a.txt", 1);
    entry.modified = ModifiedTime::Unavailable;
    assert_eq!(describe(&entry).modified, None);
    entry.modified = ModifiedTime::BeforeEpoch;
    assert_eq!(describe(&entry).modified, None);
    entry.modified = ModifiedTime::SinceEpoch(0);
    assert_eq!(describe(&entry).modified, Some(0));
    assert_eq!(ModifiedTime::SinceEpoch(7).to_seconds(), Some(7));
    assert_eq!(ModifiedTime::BeforeEpoch.to_seconds(), None);
}

#[test]
fn filter_entries_keeps_accepted_entries_in_order() {
    let entries = vec![
        file("b.txt", 2),
        file("tool.exe", 100),
        dir("src", 4096),
        file(".hidden", 3),
        file("a.txt", 5),
    ];
    let names: Vec<String> = filter_entries(&entries, &IndexOptions::default())
        .into_iter()
        .map(|node| node.name)
        .collect();
    assert_eq!(names, vec!["b.txt", "src", "a.txt"]);
    assert_eq!(filter_entries(&Vec::new(), &IndexOptions::default()), Vec::new());
}

#[test]
fn filtering_in_two_parts_gives_the_same_list() {
    let options = limit(Some(50));
    let first = vec![file("a.txt", 5), file("x.dll", 1), dir(".git", 0)];
    let second = vec![file("big.log", 51), file("c.rs", 50)];
    let mut whole = first.clone();
    whole.extend(second.clone());
    let mut merged = filter_entries(&first, &options);
    merged.extend(filter_entries(&second, &options));
    assert_eq!(filter_entries(&whole, &options), merged);
    assert_eq!(merged.len(), 3);
}
