use storage_copy::{has_glob_chars, literal_prefix, split_glob_path};

#[test]
fn test_literal_prefix() {
    let test_cases = vec![
        ("path/to/some/**/*.txt", Some("path/to/some".to_string())),
        ("path/to/s?me/**/*.txt", Some("path/to".to_string())),
        ("path/to/som[ae]/**/*.txt", Some("path/to".to_string())),
        ("path/to/some/file{,.txt}", Some("path/to/some".to_string())),
        ("path/to/some/file", None),
    ];

    for (input, expected) in test_cases {
        let result = literal_prefix(input);
        assert_eq!(result, expected, "Failed for input: {}", input);
    }
}

#[test]
fn test_split_glob_path() {
    let test_cases = vec![
        (
            "path/to/some/**/*.txt",
            ("path/to/some".to_string(), "**/*.txt".to_string()),
        ),
        (
            "path/to/s?me/**/*.txt",
            ("path/to".to_string(), "s?me/**/*.txt".to_string()),
        ),
        (
            "path/to/som[ae]/**/*.txt",
            ("path/to".to_string(), "som[ae]/**/*.txt".to_string()),
        ),
        (
            "path/to/some/file{,.txt}",
            ("path/to/some".to_string(), "file{,.txt}".to_string()),
        ),
    ];

    for (input, expected) in test_cases {
        let result = split_glob_path(input);
        assert_eq!(result, expected, "Failed for input: {}", input);
    }
}

#[test]
fn has_glob_chars_detects_each_metacharacter() {
    assert!(has_glob_chars("a*"));
    assert!(has_glob_chars("a?b"));
    assert!(has_glob_chars("[ab]"));
    assert!(has_glob_chars("x{a,b}"));
    assert!(!has_glob_chars("plain/path.txt"));
    assert!(!has_glob_chars(""));
    assert!(!has_glob_chars("a]b}c"));
}

#[test]
fn literal_prefix_of_leading_glob_is_empty() {
    assert_eq!(literal_prefix("*.txt"), Some(String::new()));
    assert_eq!(literal_prefix("/a/*.txt"), Some("/a".to_string()));
    assert_eq!(literal_prefix("a//b/*"), Some("a//b".to_string()));
    assert_eq!(literal_prefix(""), None);
}

#[test]
fn split_glob_path_drops_empty_segments() {
    assert_eq!(
        split_glob_path("/a//b/*.rs/"),
        ("a/b".to_string(), "*.rs".to_string())
    );
    assert_eq!(
        split_glob_path("a/b"),
        ("a/b".to_string(), String::new())
    );
    assert_eq!(
        split_glob_path("*/a/b"),
        (String::new(), "*/a/b".to_string())
    );
    assert_eq!(split_glob_path(""), (String::new(), String::new()));
}
