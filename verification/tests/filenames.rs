//! Display-name derivation: the last path component, with the fixed
//! placeholder when a path has no extractable component.

use inkwell::path_name::filename_from_path;

#[test]
fn plain_file_name() {
    assert_eq!(filename_from_path("/home/user/notes.md"), "notes.md");
}

#[test]
fn relative_path() {
    assert_eq!(filename_from_path("docs/readme.txt"), "readme.txt");
}

#[test]
fn bare_name_is_its_own_component() {
    assert_eq!(filename_from_path("story"), "story");
}

#[test]
fn trailing_separator_is_ignored() {
    assert_eq!(filename_from_path("/home/user/docs/"), "docs");
}

#[test]
fn repeated_trailing_separators_are_ignored() {
    assert_eq!(filename_from_path("a//"), "a");
}

#[test]
fn trailing_cur_dir_component_is_ignored() {
    assert_eq!(filename_from_path("a/."), "a");
}

#[test]
fn root_has_no_component() {
    assert_eq!(filename_from_path("/"), "Untitled");
}

#[test]
fn empty_path_has_no_component() {
    assert_eq!(filename_from_path(""), "Untitled");
}

#[test]
fn lone_cur_dir_has_no_component() {
    assert_eq!(filename_from_path("."), "Untitled");
}

#[test]
fn parent_component_gives_placeholder() {
    assert_eq!(filename_from_path(".."), "Untitled");
}

#[test]
fn path_ending_in_parent_gives_placeholder() {
    assert_eq!(filename_from_path("a/.."), "Untitled");
}

#[test]
fn hidden_file_keeps_its_name() {
    assert_eq!(filename_from_path("/home/user/.config"), ".config");
}

#[test]
fn dots_inside_name_are_kept() {
    assert_eq!(filename_from_path("/tmp/archive.tar.gz"), "archive.tar.gz");
}

#[test]
fn non_ascii_name() {
    assert_eq!(filename_from_path("/home/user/ノート.md"), "ノート.md");
}
