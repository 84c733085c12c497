// Feeds every short input over small alphabets through the functions that
// rest on other crates: none of them may panic, and what they give must agree
// with itself.

use storage_copy::{
    copy, destination_of_entry, lister, relative_path, source_filename, EntryMode, Metadata,
    Outcome, ProfileOperatorFactory, Reply, Request, StorageEntry,
};

fn sequences(tokens: &[&str], max_len: usize) -> Vec<String> {
    let mut all = vec![String::new()];
    let mut last = vec![String::new()];
    for _ in 0..max_len {
        let mut next = Vec::new();
        for prefix in &last {
            for token in tokens {
                next.push(format!("{}{}", prefix, token));
            }
        }
        all.extend(next.iter().cloned());
        last = next;
    }
    all
}

#[test]
fn every_short_pattern_is_accepted_or_refused() {
    let tokens = ["a", "*", "?", "[", "]", "{", "}", ",", "\\", "!", "-", "/"];
    let mut accepted = 0;
    let mut refused = 0;
    for pattern in sequences(&tokens, 4) {
        match lister(&pattern, None) {
            Ok(plan) => {
                accepted += 1;
                let _ = plan.admits("a");
                let _ = plan.admits("a/a");
                let _ = plan.admits("");
            }
            Err(_) => refused += 1,
        }
    }
    assert!(accepted > 0);
    assert!(refused > 0);
}

#[test]
fn deeply_nested_alternations_are_refused_not_compiled() {
    for depth in [65, 100, 300, 1000] {
        let pattern = format!("{}a{}", "{a,".repeat(depth), "}".repeat(depth));
        assert!(lister(&pattern, None).is_err());
    }
    let deepest = format!("{}x[ab]*y?{}", "{a*b?,[ab]c".repeat(64), "*d}".repeat(64));
    let plan = lister(&deepest, None).unwrap();
    assert!(!plan.admits("zzz"));
    assert!(!plan.admits(""));
    let widest = format!("{{{}}}", vec!["{a,b}"; 63].join(","));
    let plan = lister(&widest, None).unwrap();
    assert!(plan.admits("a"));
    assert!(plan.admits("b"));
    assert!(!plan.admits("c"));
}

#[test]
fn every_short_disposition_header_is_read() {
    let tokens = [
        "filename", "name", "*", "0", "1", "=", ";", "'", "\"", "%", "4", "utf-8", " ", "x",
    ];
    let mut named = 0;
    for header in sequences(&tokens, 4) {
        let metadata = Metadata {
            mode: EntryMode::File,
            size: 0,
            content_type: None,
            content_disposition: Some(header),
        };
        if source_filename("", &metadata).is_ok() {
            named += 1;
        }
    }
    assert!(named > 0);
}

#[test]
fn disposition_header_forms() {
    let cases = [
        ("attachment; filename=\"a b.txt\"", Some("a b.txt")),
        ("attachment; filename=plain.bin", Some("plain.bin")),
        ("attachment; FILENAME=upper.txt", Some("upper.txt")),
        ("attachment; filename*=utf-8''na%C3%AFve.txt", Some("naïve.txt")),
        ("attachment; filename*0=\"long\"; filename*1=\"name.txt\"", Some("longname.txt")),
        ("inline", None),
        ("attachment; name=field", None),
        ("", None),
    ];
    for (header, expected) in cases {
        let metadata = Metadata {
            mode: EntryMode::File,
            size: 0,
            content_type: None,
            content_disposition: Some(header.to_string()),
        };
        assert_eq!(
            source_filename("", &metadata).ok().as_deref(),
            expected,
            "header: {:?}",
            header
        );
    }
}

#[test]
fn every_short_path_has_a_place() {
    let paths = sequences(&["a", ".", "/"], 5);
    for path in &paths {
        for root in ["", "a", "a/", "/", ".", "a/a"] {
            let relative = relative_path(path, root);
            if root.is_empty() {
                assert_eq!(&relative, path);
            }
            assert!(root.is_empty() || !relative.starts_with('/') || relative == *path);
            let target = destination_of_entry("out/", root, path);
            assert_eq!(target, destination_of_entry("out/", root, path));
        }
        let metadata = Metadata::new(EntryMode::File);
        let first = source_filename(path, &metadata);
        assert_eq!(first, source_filename(path, &metadata));
        if let Ok(name) = first {
            assert!(!name.is_empty());
            assert!(!name.contains('/'));
            assert!(name != "." && name != "..");
        }
    }
}

#[test]
fn every_short_entry_path_is_placed_by_the_copier() {
    let paths = sequences(&["a", ".", "/"], 5);
    for destination in ["", "out", "out/", "a/b/"] {
        let (task, _) = copy("dir/", destination);
        let (task, _) = task.step(Reply::Metadata(Metadata::new(EntryMode::Dir)));
        let (task, _) = task.step(Reply::Completed);
        let (mut task, _) = task.step(Reply::Metadata(Metadata::new(EntryMode::Dir)));
        let mut created: Vec<String> = Vec::new();
        for path in &paths {
            let entry = StorageEntry::new(path, Metadata::new(EntryMode::File));
            let (next, mut request) = task.step(Reply::Entry(entry));
            task = next;
            if let Request::CreateDir { path: directory } = &request {
                assert!(directory.ends_with('/'));
                assert!(!created.contains(directory), "created twice: {:?}", directory);
                created.push(directory.clone());
                let (next, after) = task.step(Reply::Completed);
                task = next;
                request = after;
            }
            match &request {
                Request::Transfer(transfer) => {
                    assert_eq!(&transfer.source, path);
                    assert_eq!(
                        transfer.destination,
                        destination_of_entry(task.destination(), "dir/", path)
                    );
                }
                other => panic!("expected Transfer, got {:?}", other),
            }
            let (next, request) = task.step(Reply::Completed);
            task = next;
            assert!(matches!(request, Request::NextEntry));
        }
        let (_, request) = task.step(Reply::End);
        assert!(matches!(request, Request::Finish(Outcome::Done)));
    }
}

#[test]
fn every_short_file_destination_is_resolved() {
    for destination in sequences(&["a", ".", "/"], 5) {
        let (task, _) = copy("a.txt", &destination);
        let (task, _) = task.step(Reply::Metadata(Metadata::new(EntryMode::File)));
        let (task, request) = task.step(Reply::Error(storage_copy::ErrorKind::NotFound));
        let request = match request {
            Request::CreateDir { path } => {
                assert!(path.ends_with('/'));
                task.step(Reply::Completed).1
            }
            other => other,
        };
        match request {
            Request::Transfer(transfer) => {
                assert_eq!(transfer.source, "a.txt");
                assert_eq!(transfer.destination, storage_copy::normalize_path(&destination));
            }
            other => panic!("expected Transfer, got {:?}", other),
        }
    }
}

#[test]
fn every_short_uri_is_resolved_or_refused() {
    let profiles = ProfileOperatorFactory::new(vec![
        ("a".to_string(), vec![("type".to_string(), "b".to_string())]),
        ("http".to_string(), vec![("type".to_string(), "a".to_string())]),
        ("file".to_string(), vec![("type".to_string(), "http".to_string())]),
    ]);
    let tokens = ["a", "http", "file", ":", "/", "@", "?", "#", ".", "%", " ", "1"];
    let mut resolved = 0;
    for uri in sequences(&tokens, 5) {
        if let Ok(found) = profiles.resolve(&uri) {
            resolved += 1;
            assert!(!found.uri.is_empty());
            assert_eq!(found.options.len(), 1);
        }
    }
    assert!(resolved > 0);
}
