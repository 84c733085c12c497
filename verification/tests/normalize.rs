use storage_copy::{normalize_path, relative_path};

#[test]
fn test_normalize_path() {
    // Simple file paths
    assert_eq!(normalize_path("file.txt").as_str(), "file.txt");

    // Directory paths
    assert_eq!(normalize_path("dir/").as_str(), "dir/");

    // Nested paths
    assert_eq!(
        normalize_path("dir/subdir/file.txt").as_str(),
        "dir/subdir/file.txt"
    );
    assert_eq!(normalize_path("dir/subdir/").as_str(), "dir/subdir/");

    // Leading slash removal
    assert_eq!(normalize_path("/file.txt").as_str(), "file.txt");
    assert_eq!(normalize_path("/dir/").as_str(), "dir/");
    assert_eq!(
        normalize_path("/dir/subdir/file.txt").as_str(),
        "dir/subdir/file.txt"
    );

    // Dot segments
    assert_eq!(normalize_path("dir/./file.txt").as_str(), "dir/file.txt");
    assert_eq!(normalize_path("dir/./").as_str(), "dir/");

    // Double dot segments
    assert_eq!(
        normalize_path("dir/subdir/../file.txt").as_str(),
        "dir/file.txt"
    );
    assert_eq!(normalize_path("dir/subdir/../").as_str(), "dir/");

    // Multiple slashes
    assert_eq!(
        normalize_path("dir//subdir//file.txt").as_str(),
        "dir/subdir/file.txt"
    );
    assert_eq!(normalize_path("dir//subdir//").as_str(), "dir/subdir/");

    // Complex cases
    assert_eq!(
        normalize_path("/dir/./subdir/../another//file.txt").as_str(),
        "dir/another/file.txt"
    );
    assert_eq!(
        normalize_path("/dir/./subdir/../another//").as_str(),
        "dir/another/"
    );

    // Edge cases
    assert_eq!(normalize_path("").as_str(), "");
    assert_eq!(normalize_path("/").as_str(), "/");
    assert_eq!(normalize_path(".").as_str(), "");
    assert_eq!(normalize_path("./").as_str(), "/");
    assert_eq!(normalize_path("..").as_str(), "");
    assert_eq!(normalize_path("../").as_str(), "/");
}

#[test]
fn test_normalize_path_glob_patterns() {
    // Basic glob patterns - should be preserved as-is
    assert_eq!(normalize_path("*.txt").as_str(), "*.txt");
    assert_eq!(normalize_path("*.rs").as_str(), "*.rs");
    assert_eq!(normalize_path("file.*").as_str(), "file.*");

    // Directory globs
    assert_eq!(normalize_path("*/").as_str(), "*/");
    assert_eq!(normalize_path("dir/*/").as_str(), "dir/*/");

    // Double asterisk (recursive glob)
    assert_eq!(normalize_path("**").as_str(), "**");
    assert_eq!(normalize_path("**/").as_str(), "**/");
    assert_eq!(normalize_path("**/*.txt").as_str(), "**/*.txt");
    assert_eq!(normalize_path("dir/**/*.rs").as_str(), "dir/**/*.rs");

    // Question mark patterns
    assert_eq!(normalize_path("file?.txt").as_str(), "file?.txt");
    assert_eq!(normalize_path("test?.*").as_str(), "test?.*");

    // Character classes
    assert_eq!(normalize_path("file[0-9].txt").as_str(), "file[0-9].txt");
    assert_eq!(normalize_path("[abc]*.rs").as_str(), "[abc]*.rs");
    assert_eq!(normalize_path("test[!0-9].txt").as_str(), "test[!0-9].txt");

    // Complex glob patterns
    assert_eq!(
        normalize_path("src/**/*.{rs,toml}").as_str(),
        "src/**/*.{rs,toml}"
    );
    assert_eq!(
        normalize_path("tests/**/test_*.rs").as_str(),
        "tests/**/test_*.rs"
    );

    // Globs with path normalization
    assert_eq!(normalize_path("dir/../*.txt").as_str(), "*.txt");
    assert_eq!(normalize_path("./src/**/*.rs").as_str(), "src/**/*.rs");
    assert_eq!(
        normalize_path("dir/./sub/**/*.txt").as_str(),
        "dir/sub/**/*.txt"
    );

    // Globs with leading slash removal
    assert_eq!(normalize_path("/*.txt").as_str(), "*.txt");
    assert_eq!(normalize_path("/**/").as_str(), "**/");
    assert_eq!(normalize_path("/dir/**/*.rs").as_str(), "dir/**/*.rs");

    // Globs with multiple slashes
    assert_eq!(normalize_path("dir//**/*.txt").as_str(), "dir/**/*.txt");
    assert_eq!(normalize_path("src//sub//*.rs").as_str(), "src/sub/*.rs");

    // Complex cases combining normalization and globs
    assert_eq!(
        normalize_path("/dir/./sub/../**/*.{rs,txt}").as_str(),
        "dir/**/*.{rs,txt}"
    );
    assert_eq!(
        normalize_path("./tests//unit/../integration/**/test_*.rs").as_str(),
        "tests/integration/**/test_*.rs"
    );

    // Edge cases with globs
    assert_eq!(normalize_path("*").as_str(), "*");
    assert_eq!(normalize_path("?").as_str(), "?");
    assert_eq!(normalize_path("[abc]").as_str(), "[abc]");
    assert_eq!(normalize_path("{}").as_str(), "{}");
}

#[test]
fn normalize_resolves_segments() {
    assert_eq!(normalize_path("a/./b"), "a/b");
    assert_eq!(normalize_path("a/b/../c"), "a/c");
    assert_eq!(normalize_path("a//b"), "a/b");
}

#[test]
fn normalize_is_idempotent() {
    let inputs = [
        "",
        "/",
        ".",
        "..",
        "a",
        "a/",
        "/a//b/../c/./d/",
        "../../x",
        "a/../../b/",
        "x/./././y",
        "//a",
        "a/b/*.txt",
        "...",
        "a/.../b",
        "é/ü/",
    ];
    for input in inputs {
        let once = normalize_path(input);
        let twice = normalize_path(&once);
        assert_eq!(twice, once, "input: {:?}", input);
    }
}

#[test]
fn normalize_keeps_trailing_separator_only_where_given() {
    let inputs = ["a", "a/", "a/b/..", "a/b/../", "/", "", "x//", "x/."];
    for input in inputs {
        let normal = normalize_path(input);
        assert_eq!(normal.ends_with('/'), input.ends_with('/'), "input: {:?}", input);
    }
}

#[test]
fn normalize_strips_a_leading_separator() {
    for input in ["a", "a/b", "a/", "../x", "*.txt"] {
        let rooted = format!("/{}", input);
        assert_eq!(normalize_path(&rooted), normalize_path(input));
        assert!(!normalize_path(&rooted).starts_with('/'));
    }
}

#[test]
fn normalize_discards_parent_segments_that_leave_the_root() {
    assert_eq!(normalize_path("../a"), "a");
    assert_eq!(normalize_path("/../a"), "a");
    assert_eq!(normalize_path("a/../../b"), "b");
    assert_eq!(normalize_path("../../"), "/");
}

#[test]
fn normalize_treats_dotted_names_as_names() {
    assert_eq!(normalize_path("a/.../b"), "a/.../b");
    assert_eq!(normalize_path("a/..b/c"), "a/..b/c");
    assert_eq!(normalize_path(".hidden/x"), ".hidden/x");
}

#[test]
fn relative_path_strips_the_listing_root() {
    assert_eq!(relative_path("path/file1.txt", "path/"), "file1.txt");
    assert_eq!(relative_path("path/sub/file.txt", "path"), "sub/file.txt");
    assert_eq!(relative_path("src/utils/helper.rs", "src"), "utils/helper.rs");
}

#[test]
fn relative_path_with_empty_root_is_the_entry_path() {
    assert_eq!(relative_path("a/b.txt", ""), "a/b.txt");
    assert_eq!(relative_path("/a/b.txt", ""), "/a/b.txt");
}

#[test]
fn relative_path_outside_the_root_is_the_entry_path() {
    assert_eq!(relative_path("other/file.txt", "path/"), "other/file.txt");
    assert_eq!(relative_path("pathology/file.txt", "path"), "pathology/file.txt");
}
