// Holds the library's functions on paths and globs against direct
// restatements of their definitions, over every short string of a small
// alphabet.

use storage_copy::{
    destination_of_entry, has_glob_chars, literal_prefix, normalize_path, source_filename,
    split_glob_path, EntryMode, Metadata,
};

fn strings(alphabet: &[char], max_len: usize) -> Vec<String> {
    let mut all = vec![String::new()];
    let mut last = vec![String::new()];
    for _ in 0..max_len {
        let mut next = Vec::new();
        for prefix in &last {
            for c in alphabet {
                let mut s = prefix.clone();
                s.push(*c);
                next.push(s);
            }
        }
        all.extend(next.iter().cloned());
        last = next;
    }
    all
}

fn resolve(path: &str) -> Vec<&str> {
    let mut names: Vec<&str> = Vec::new();
    for segment in path.split('/') {
        if segment.is_empty() || segment == "." {
            continue;
        }
        if segment == ".." {
            names.pop();
        } else {
            names.push(segment);
        }
    }
    names
}

fn model_normal_path(path: &str) -> String {
    let mut normal = resolve(path).join("/");
    if path.ends_with('/') {
        normal.push('/');
    }
    normal
}

fn model_joined(base: &str, path: &str) -> String {
    if path.is_empty() {
        base.to_string()
    } else if path.starts_with('/') {
        path.to_string()
    } else if !base.is_empty() && !base.ends_with('/') {
        format!("{}/{}", base, path)
    } else {
        format!("{}{}", base, path)
    }
}

fn model_file_name(path: &str) -> Option<String> {
    let components: Vec<&str> = path
        .split('/')
        .filter(|segment| !segment.is_empty() && *segment != ".")
        .collect();
    match components.last() {
        Some(&"..") | None => None,
        Some(name) => Some(name.to_string()),
    }
}

fn is_glob_segment(segment: &str) -> bool {
    segment.contains(|c| matches!(c, '*' | '?' | '[' | '{'))
}

fn model_literal_prefix(pattern: &str) -> Option<String> {
    let segments: Vec<&str> = pattern.split('/').collect();
    let k = segments.iter().position(|s| is_glob_segment(s))?;
    Some(segments[..k].join("/"))
}

fn model_split_glob(pattern: &str) -> (String, String) {
    let segments: Vec<&str> = pattern.split('/').filter(|s| !s.is_empty()).collect();
    let k = segments
        .iter()
        .position(|s| is_glob_segment(s))
        .unwrap_or(segments.len());
    (segments[..k].join("/"), segments[k..].join("/"))
}

#[test]
fn normalize_agrees_with_its_definition() {
    for path in strings(&['a', '.', '/'], 8) {
        assert_eq!(normalize_path(&path), model_normal_path(&path), "path: {:?}", path);
    }
    for path in strings(&['a', 'b', '.', '/', '*'], 5) {
        assert_eq!(normalize_path(&path), model_normal_path(&path), "path: {:?}", path);
    }
}

#[test]
fn normalize_is_idempotent_on_short_paths() {
    for path in strings(&['a', '.', '/', '?'], 6) {
        let once = normalize_path(&path);
        assert_eq!(normalize_path(&once), once, "path: {:?}", path);
    }
}

#[test]
fn join_agrees_with_its_definition() {
    let parts = strings(&['a', '.', '/'], 4);
    for base in &parts {
        for path in &parts {
            assert_eq!(
                destination_of_entry(base, "", path),
                model_joined(base, path),
                "base: {:?}, path: {:?}",
                base,
                path
            );
        }
    }
}

#[test]
fn file_name_agrees_with_its_definition() {
    let metadata = Metadata::new(EntryMode::File);
    for path in strings(&['a', '.', '/'], 8) {
        assert_eq!(
            source_filename(&path, &metadata).ok(),
            model_file_name(&path),
            "path: {:?}",
            path
        );
    }
    for path in strings(&['a', 'b', '.', '/', '*'], 5) {
        assert_eq!(
            source_filename(&path, &metadata).ok(),
            model_file_name(&path),
            "path: {:?}",
            path
        );
    }
}

#[test]
fn literal_prefix_agrees_with_its_definition() {
    for pattern in strings(&['a', '/', '*', '{'], 6) {
        assert_eq!(
            literal_prefix(&pattern),
            model_literal_prefix(&pattern),
            "pattern: {:?}",
            pattern
        );
        assert_eq!(
            literal_prefix(&pattern).is_some(),
            has_glob_chars(&pattern),
            "pattern: {:?}",
            pattern
        );
    }
}

#[test]
fn split_glob_path_agrees_with_its_definition() {
    for pattern in strings(&['a', '/', '?', '['], 6) {
        assert_eq!(
            split_glob_path(&pattern),
            model_split_glob(&pattern),
            "pattern: {:?}",
            pattern
        );
    }
}

#[test]
fn strings_with_other_characters_are_split_by_characters() {
    assert_eq!(normalize_path("é/./ü//ß/../x/"), "é/ü/x/");
    assert_eq!(literal_prefix("дом/файл*.txt"), Some("дом".to_string()));
    assert_eq!(
        split_glob_path("日本/語?/x"),
        ("日本".to_string(), "語?/x".to_string())
    );
    assert!(!has_glob_chars("naïve/path"));
}
