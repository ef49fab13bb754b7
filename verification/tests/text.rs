use opday::text::{joined_text, is_white_space, join_path, same_text, trim};
use std::path::Path;

#[test]
fn join_path_places_a_name_under_a_directory() {
    assert_eq!(join_path("a", "b"), "a/b");
    assert_eq!(join_path("a/", "b"), "a/b");
    assert_eq!(join_path("", "b"), "b");
    assert_eq!(join_path("a", ""), "a/");
    assert_eq!(join_path("a/", ""), "a/");
    assert_eq!(join_path("a", "/b"), "/b");
    assert_eq!(join_path(".", "docker-compose.yaml"), "./docker-compose.yaml");
    assert_eq!(join_path("", ""), "");
}

#[test]
fn join_path_agrees_with_the_local_path_join() {
    let parts = ["", ".", "a", "a/", "/", "/a", "a/b", "é", "a//", "../x", "x y"];
    for base in parts {
        for name in parts {
            let expected = Path::new(base).join(name).to_string_lossy().into_owned();
            assert_eq!(join_path(base, name), expected, "{:?} {:?}", base, name);
        }
    }
}

#[test]
fn white_space_is_the_unicode_property() {
    let mut code: u32 = 0;
    while code <= 0x10ffff {
        if let Some(c) = char::from_u32(code) {
            assert_eq!(is_white_space(c), c.is_whitespace(), "{:x}", code);
        }
        code += 1;
    }
}

#[test]
fn trim_removes_the_white_space_around() {
    assert_eq!(trim("  secret \n"), "secret");
    assert_eq!(trim("secret"), "secret");
    assert_eq!(trim(" a b "), "a b");
    assert_eq!(trim(""), "");
    assert_eq!(trim(" \t\r\n"), "");
    assert_eq!(trim("\u{3000}pä ss\u{a0}"), "pä ss");
    for text in ["x", " x", "x ", "\n\nx y\n", "\u{2028}é\u{85}", "   "] {
        assert_eq!(trim(text), text.trim());
    }
}

#[test]
fn concat_and_same_text() {
    assert_eq!(joined_text("ab", "cd"), "abcd");
    assert_eq!(joined_text("", ""), "");
    assert!(same_text("abc", "abc"));
    assert!(!same_text("abc", "abd"));
    assert!(!same_text("abc", "ab"));
}
