use storage_copy::{
    glob_lister, list, lister, EntryMode, ErrorKind, Failure, ListOptions, Lister, Metadata,
    StorageEntry,
};

fn entries(paths: &[&str]) -> Vec<StorageEntry> {
    paths
        .iter()
        .map(|path| {
            let mode = if path.ends_with('/') {
                EntryMode::Dir
            } else {
                EntryMode::File
            };
            StorageEntry::new(path, Metadata::new(mode))
        })
        .collect()
}

fn paths(entries: &[StorageEntry]) -> Vec<&str> {
    entries.iter().map(|entry| entry.path.as_str()).collect()
}

#[test]
fn plain_path_is_listed_as_it_stands() {
    let plan = lister("path/to/", None).unwrap();
    assert_eq!(plan.root(), "path/to/");
    assert!(!plan.recursive());
    assert!(!plan.is_filtered());
    assert!(plan.admits("anything/at/all"));
    assert!(plan.admits(""));
}

#[test]
fn plain_path_takes_the_recursion_flag_of_the_options() {
    let plan = lister("path/to/", Some(ListOptions { recursive: true })).unwrap();
    assert!(plan.recursive());
    let plan = lister("path/to/", Some(ListOptions { recursive: false })).unwrap();
    assert!(!plan.recursive());
    assert!(!ListOptions::default().recursive);
}

#[test]
fn glob_path_is_listed_recursively_from_its_literal_prefix() {
    let plan = lister("path/to/s?me/**/*.txt", Some(ListOptions { recursive: false })).unwrap();
    assert_eq!(plan.root(), "path/to");
    assert!(plan.recursive());
    assert!(plan.is_filtered());
}

#[test]
fn glob_filter_matches_the_whole_path() {
    let plan = lister("dir/*.txt", None).unwrap();
    assert!(plan.admits("dir/a.txt"));
    assert!(!plan.admits("dir/b.rs"));
    assert!(!plan.admits("a.txt"));
    assert!(!plan.admits("other/dir/a.txt"));
    assert!(plan.admits("dir/sub/a.txt"));
    assert!(!plan.admits("dir/a.txt/more"));
}

#[test]
fn glob_filter_knows_the_metacharacters() {
    let plan = lister("src/**/*.rs", None).unwrap();
    assert!(plan.admits("src/main.rs"));
    assert!(plan.admits("src/utils/helper.rs"));
    assert!(!plan.admits("src/readme.txt"));

    let plan = lister("data/file?.txt", None).unwrap();
    assert!(plan.admits("data/file1.txt"));
    assert!(!plan.admits("data/file10.txt"));

    let plan = lister("logs/app.[lt]*", None).unwrap();
    assert!(plan.admits("logs/app.log"));
    assert!(plan.admits("logs/app.txt"));
    assert!(!plan.admits("logs/app.bak"));

    let plan = lister("path/to/some/file{,.txt}", None).unwrap();
    assert!(plan.admits("path/to/some/file.txt"));
    assert!(!plan.admits("path/to/some/file"));
    assert!(!plan.admits("path/to/some/file.rs"));

    let plan = lister("path/to/some/file.{rs,txt}", None).unwrap();
    assert!(plan.admits("path/to/some/file.txt"));
    assert!(plan.admits("path/to/some/file.rs"));
    assert!(!plan.admits("path/to/some/file.md"));
}

#[test]
fn malformed_glob_is_unexpected() {
    for pattern in ["dir/[", "dir/{a,b", "dir/a}*", "dir/[z-a]"] {
        let failure = lister(pattern, None).err();
        assert_eq!(failure, Some(Failure::InvalidGlob), "pattern: {:?}", pattern);
    }
    assert_eq!(Failure::InvalidGlob.kind(), ErrorKind::Unexpected);
}

#[test]
fn pattern_beyond_the_limits_is_not_compiled() {
    let long = format!("dir/{}*", "a".repeat(5000));
    assert_eq!(lister(&long, None).err(), Some(Failure::InvalidGlob));

    let at_limit = format!("{}*", "a".repeat(4095));
    assert!(lister(&at_limit, None).is_ok());
    let over_limit = format!("{}*", "a".repeat(4096));
    assert_eq!(lister(&over_limit, None).err(), Some(Failure::InvalidGlob));

    let nested = format!("{}a{}", "{a,".repeat(65), "}".repeat(65));
    assert_eq!(lister(&nested, None).err(), Some(Failure::InvalidGlob));
    let allowed = format!("{}a{}", "{a,".repeat(64), "}".repeat(64));
    let plan = lister(&allowed, None).unwrap();
    assert!(plan.admits("a"));
    assert!(!plan.admits("b"));
}

#[test]
fn glob_lister_takes_prefix_and_pattern_apart() {
    let plan = glob_lister("path/", "path/**/file.txt", None).unwrap();
    assert_eq!(plan.root(), "path/");
    assert!(plan.recursive());
    assert!(plan.is_filtered());
    assert!(plan.admits("path/to/file.txt"));
    assert!(!plan.admits("path/to/other.txt"));

    let plan = glob_lister("", "plain.txt", Some(ListOptions { recursive: false })).unwrap();
    assert!(plan.recursive());
    assert!(plan.admits("plain.txt"));
    assert!(!plan.admits("plain.txt.bak"));

    assert_eq!(
        glob_lister("path/", "path/[", None).err(),
        Some(Failure::InvalidGlob)
    );
}

#[test]
fn list_keeps_the_matches_in_order() {
    let plan = lister("dir/**/*.txt", None).unwrap();
    let raw = entries(&[
        "dir/z.txt",
        "dir/a.rs",
        "dir/sub/",
        "dir/sub/b.txt",
        "dir/a.txt",
        "dir/sub/c.md",
    ]);
    let kept = list(&plan, &raw);
    assert_eq!(paths(&kept), vec!["dir/z.txt", "dir/sub/b.txt", "dir/a.txt"]);
    assert_eq!(raw.len(), 6);
}

#[test]
fn list_without_a_filter_keeps_everything() {
    let plan = lister("dir/", None).unwrap();
    let raw = entries(&["dir/a.txt", "dir/sub/", "dir/b.rs"]);
    let kept = list(&plan, &raw);
    assert_eq!(paths(&kept), vec!["dir/a.txt", "dir/sub/", "dir/b.rs"]);
    assert_eq!(kept[1].metadata.mode, EntryMode::Dir);
    assert!(list(&plan, &Vec::new()).is_empty());
}

#[test]
fn list_keeps_the_metadata_of_what_it_keeps() {
    let plan = lister("dir/*.json", None).unwrap();
    let raw = vec![StorageEntry::new(
        "dir/a.json",
        Metadata {
            mode: EntryMode::File,
            size: 42,
            content_type: Some("application/json".to_string()),
            content_disposition: Some("inline".to_string()),
        },
    )];
    let kept = list(&plan, &raw);
    assert_eq!(kept.len(), 1);
    assert_eq!(kept[0].metadata.size, 42);
    assert_eq!(kept[0].metadata.content_type.as_deref(), Some("application/json"));
    assert_eq!(kept[0].metadata.content_disposition.as_deref(), Some("inline"));
}

#[test]
fn unfiltered_plan_holds_what_it_was_given() {
    let plan = Lister::unfiltered("some/root".to_string(), true);
    assert_eq!(plan.root(), "some/root");
    assert!(plan.recursive());
    assert!(!plan.is_filtered());
}
