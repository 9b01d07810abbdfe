use storagenv::store::{encode_content, entry_path, store_dir};

#[test]
fn empty_content_encodes_to_one_empty_line() {
    assert_eq!(encode_content(""), "\n");
}

#[test]
fn plain_content_gets_a_trailing_newline() {
    assert_eq!(encode_content("A=1"), "A=1\n");
}

#[test]
fn escaped_newline_splits_into_two_lines() {
    // The content token carries backslash-n, two characters.
    assert_eq!(encode_content("A=1\\nB=2"), "A=1\nB=2\n");
}

#[test]
fn adjacent_escapes_make_empty_lines() {
    assert_eq!(encode_content("\\n\\n"), "\n\n\n");
}

#[test]
fn lone_backslash_stands_for_itself() {
    assert_eq!(encode_content("a\\"), "a\\\n");
    assert_eq!(encode_content("a\\b"), "a\\b\n");
}

#[test]
fn escapes_are_found_left_to_right_without_overlap() {
    // backslash backslash n: the first backslash pairs with nothing, the
    // second starts the escape.
    assert_eq!(encode_content("a\\\\nb"), "a\\\nb\n");
}

#[test]
fn entry_paths_join_the_store_directory_and_the_verbatim_name() {
    assert_eq!(store_dir(), "envs");
    assert_eq!(entry_path("demo"), "envs/demo");
    assert_eq!(entry_path("../outside"), "envs/../outside");
}
