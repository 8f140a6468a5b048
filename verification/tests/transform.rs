use here::cli::TransformFlags;
use here::transform::{display_string, folder_component, is_normal, normalize, reduce_to_folder};

fn flags() -> TransformFlags {
    TransformFlags::default()
}

#[test]
fn normalize_collapses_dots_and_separators() {
    let cases = [
        ("", "."),
        (".", "."),
        ("..", ".."),
        ("/", "/"),
        ("//", "/"),
        (".//", "."),
        ("/..//", "/"),
        ("path//to///thing", "path/to/thing"),
        ("./test/./path", "test/path"),
        ("/test/./path/", "/test/path"),
        ("test/path/..", "test"),
        ("test/../path", "path"),
        ("test/path/../../..", ".."),
        ("/test/path/../../../..", "/"),
        ("test/path/../../another/path/..", "another"),
        ("../test/", "../test"),
        ("hello/world/..", "hello"),
        ("/home/me/.", "/home/me"),
    ];
    for (path, expected) in cases {
        assert_eq!(normalize(path), expected, "{:?}", path);
    }
}

#[test]
fn normalize_is_idempotent() {
    let paths = [
        "",
        ".",
        "..",
        "/",
        "a",
        "a/b/../c",
        "../../x/./y//z/",
        "/../..",
        "/a/b/c/../../..",
        "C:\\Users\\me\\..",
        "./.././..",
        "a/./b/.",
    ];
    for path in paths {
        let once = normalize(path);
        let twice = normalize(&once);
        assert_eq!(twice, once, "{:?}", path);
    }
}

fn short_paths(alphabet: &[char], longest: usize) -> Vec<String> {
    let mut all = vec![String::new()];
    let mut last = vec![String::new()];
    for _ in 0..longest {
        let mut next = Vec::new();
        for text in &last {
            for c in alphabet {
                let mut longer = text.clone();
                longer.push(*c);
                next.push(longer);
            }
        }
        all.extend(next.iter().cloned());
        last = next;
    }
    all
}

#[test]
fn normalize_is_idempotent_on_every_short_path() {
    for path in short_paths(&['/', '.', 'a', '\\', ':'], 7) {
        let once = normalize(&path);
        assert!(!once.is_empty(), "{:?}", path);
        assert!(is_normal(&once), "{:?}", path);
        assert_eq!(normalize(&once), once, "{:?}", path);
    }
}

#[test]
fn is_normal_tells_whether_cleaning_changes_the_path() {
    assert!(is_normal("."));
    assert!(is_normal(".."));
    assert!(is_normal("/"));
    assert!(is_normal("/a/b"));
    assert!(is_normal("../a"));
    assert!(!is_normal(""));
    assert!(!is_normal("a/"));
    assert!(!is_normal("a//b"));
    assert!(!is_normal("./a"));
    assert!(!is_normal("a/../b"));
    assert!(!is_normal("/.."));
}


#[test]
fn reduce_to_folder_takes_the_parent_of_a_file() {
    assert_eq!(
        reduce_to_folder("/a/b.txt".to_owned(), true, Some("/a".to_owned())),
        "/a"
    );
}

#[test]
fn reduce_to_folder_leaves_what_is_no_file() {
    assert_eq!(
        reduce_to_folder("/a/b".to_owned(), false, Some("/a".to_owned())),
        "/a/b"
    );
    assert_eq!(reduce_to_folder("/a/b".to_owned(), false, None), "/a/b");
}

#[test]
fn reduce_to_folder_leaves_a_path_without_parent() {
    assert_eq!(reduce_to_folder("/".to_owned(), true, None), "/");
}

#[test]
fn folder_component_strips_the_last_segment_of_a_file() {
    assert_eq!(folder_component("/usr/bin/env".to_owned(), true), "/usr/bin");
    assert_eq!(folder_component("a/b.txt".to_owned(), true), "a");
    assert_eq!(folder_component("/x".to_owned(), true), "/");
    assert_eq!(folder_component("b.txt".to_owned(), true), "");
}

#[test]
fn folder_component_is_the_identity_on_what_is_no_file() {
    assert_eq!(folder_component("/usr/bin".to_owned(), false), "/usr/bin");
    assert_eq!(folder_component("a/b.txt".to_owned(), false), "a/b.txt");
    assert_eq!(folder_component("".to_owned(), false), "");
}

#[test]
fn folder_component_leaves_a_path_without_parent() {
    assert_eq!(folder_component("/".to_owned(), true), "/");
    assert_eq!(folder_component("".to_owned(), true), "");
}

#[test]
fn display_without_flags_is_the_path() {
    assert_eq!(display_string("C:\\a/b", &flags()), "C:\\a/b");
    assert_eq!(display_string("", &flags()), "");
}

#[test]
fn posix_style_turns_backslashes_forward() {
    let f = TransformFlags { posix_style: true, ..flags() };
    assert_eq!(display_string("C:\\Users\\me/x", &f), "C:/Users/me/x");
}

#[test]
fn no_posix_style_turns_slashes_backward() {
    let f = TransformFlags { no_posix_style: true, ..flags() };
    assert_eq!(display_string("/home/me\\x", &f), "\\home\\me\\x");
}

#[test]
fn posix_style_goes_first_where_both_are_set() {
    let f = TransformFlags { posix_style: true, no_posix_style: true, ..flags() };
    assert_eq!(display_string("a\\b/c", &f), "a/b/c");
}

#[test]
fn slashes_are_turned_before_backslashes_are_doubled() {
    let f = TransformFlags { no_posix_style: true, escape_backslash: true, ..flags() };
    assert_eq!(display_string("a/b", &f), "a\\\\b");
    assert_eq!(display_string("a/b\\c", &f), "a\\\\b\\\\c");
    assert_eq!(display_string("C:\\x/y/z", &f), "C:\\\\x\\\\y\\\\z");
}

#[test]
fn posix_style_leaves_nothing_to_escape() {
    let f = TransformFlags { posix_style: true, escape_backslash: true, ..flags() };
    assert_eq!(display_string("a\\b", &f), "a/b");
}

#[test]
fn wrap_quote_and_escape_backslash_on_a_windows_path() {
    let f = TransformFlags { wrap_quote: true, escape_backslash: true, ..flags() };
    assert_eq!(display_string("C:\\Users\\me", &f), "\"C:\\\\Users\\\\me\"");
}

#[test]
fn wrap_quote_adds_one_pair_of_quotes() {
    let f = TransformFlags { wrap_quote: true, ..flags() };
    assert_eq!(display_string("/home/me", &f), "\"/home/me\"");
    assert_eq!(display_string("", &f), "\"\"");
}

#[test]
fn escape_backslash_alone_doubles_backslashes() {
    let f = TransformFlags { escape_backslash: true, ..flags() };
    assert_eq!(display_string("C:\\a\\b", &f), "C:\\\\a\\\\b");
    assert_eq!(display_string("/a/b", &f), "/a/b");
}

#[test]
fn all_three_text_steps_in_order() {
    let f = TransformFlags {
        no_posix_style: true,
        wrap_quote: true,
        escape_backslash: true,
        ..flags()
    };
    assert_eq!(display_string("C:/a\\b", &f), "\"C:\\\\a\\\\b\"");
}

#[test]
fn other_flags_do_not_touch_the_text() {
    let f = TransformFlags {
        folder_component: true,
        resolve_symlink: true,
        no_copy: true,
        no_color: true,
        change_directory: true,
        select_first_option: true,
        ..flags()
    };
    assert_eq!(display_string("C:\\a/b", &f), "C:\\a/b");
}
