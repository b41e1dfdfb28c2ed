use filetruck::path::{append, chars_of, contains_parent_segment, parent};

#[test]
fn append_puts_one_separator_between() {
    assert_eq!(append("/work", "plan"), "/work/plan");
    assert_eq!(append("ext", "sub/a.txt"), "ext/sub/a.txt");
}

#[test]
fn append_keeps_a_separator_that_is_there() {
    assert_eq!(append("/", "plan"), "/plan");
    assert_eq!(append("/work/", "plan"), "/work/plan");
}

#[test]
fn append_to_nothing_is_the_name() {
    assert_eq!(append("", "plan"), "plan");
    assert_eq!(append("", ""), "");
}

#[test]
fn append_of_nothing_ends_in_a_separator() {
    assert_eq!(append("/work", ""), "/work/");
    assert_eq!(append("/work/", ""), "/work/");
}

#[test]
fn append_of_an_absolute_path_replaces() {
    assert_eq!(append("/work", "/badpath"), "/badpath");
    assert_eq!(append("", "/"), "/");
}

#[test]
fn append_counts_characters_not_bytes() {
    assert_eq!(append("/tmp/b\u{fc}ro", "\u{e4}rger/\u{1f600}"), "/tmp/b\u{fc}ro/\u{e4}rger/\u{1f600}");
    assert_eq!(append("\u{1f600}/", "x"), "\u{1f600}/x");
}

#[test]
fn chars_of_gives_every_character() {
    assert_eq!(chars_of("a/\u{e4}"), vec!['a', '/', '\u{e4}']);
    assert!(chars_of("").is_empty());
}

#[test]
fn parent_segments_are_found() {
    for path in ["..", "../secret", "a/..", "a/../b", "/..", "/../", "x/y/../../z"] {
        assert!(contains_parent_segment(path), "{}", path);
    }
}

#[test]
fn other_dots_are_left_alone() {
    for path in ["", ".", "a", "a..", "..a", "a../b", "a/..b", "...", "a/.../b", "./a", "\u{e4}../."] {
        assert!(!contains_parent_segment(path), "{}", path);
    }
}

#[test]
fn the_parent_is_the_path_without_its_last_segment() {
    assert_eq!(parent("out/sub/c.txt"), Some("out/sub".to_string()));
    assert_eq!(parent("/work/p/a"), Some("/work/p".to_string()));
    assert_eq!(parent("a/b"), Some("a".to_string()));
    assert_eq!(parent("\u{e4}/\u{1f600}/x"), Some("\u{e4}/\u{1f600}".to_string()));
}

#[test]
fn separators_around_the_last_segment_do_not_count() {
    assert_eq!(parent("a/b/"), Some("a".to_string()));
    assert_eq!(parent("a//b"), Some("a".to_string()));
    assert_eq!(parent("a/b///"), Some("a".to_string()));
}

#[test]
fn the_parent_of_a_name_below_the_root_is_the_root() {
    assert_eq!(parent("/a"), Some("/".to_string()));
    assert_eq!(parent("//a/"), Some("/".to_string()));
}

#[test]
fn the_parent_of_a_lone_name_is_the_empty_path() {
    assert_eq!(parent("a"), Some("".to_string()));
    assert_eq!(parent("a/"), Some("".to_string()));
    assert_eq!(parent(".."), Some("".to_string()));
}

#[test]
fn the_root_and_the_empty_path_have_no_parent() {
    assert_eq!(parent("/"), None);
    assert_eq!(parent("///"), None);
    assert_eq!(parent(""), None);
}
