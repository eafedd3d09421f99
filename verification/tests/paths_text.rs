use rhino_player::paths::path_file_name;
use rhino_player::text::{char_is_whitespace, decimal_text, is_blank};

fn name(p: &str) -> Option<String> {
    path_file_name(p)
}

#[test]
fn file_name_of_plain_file() {
    assert_eq!(name("/home/me/Videos/clip.mkv"), Some("clip.mkv".to_string()));
    assert_eq!(name("clip.mkv"), Some("clip.mkv".to_string()));
}

#[test]
fn file_name_ignores_trailing_separators_and_dots() {
    assert_eq!(name("/home/me/DVD/"), Some("DVD".to_string()));
    assert_eq!(name("/home/me//DVD//"), Some("DVD".to_string()));
    assert_eq!(name("/home/me/DVD/."), Some("DVD".to_string()));
    assert_eq!(name("a/./"), Some("a".to_string()));
    assert_eq!(name("./x"), Some("x".to_string()));
}

#[test]
fn file_name_absent_cases() {
    assert_eq!(name(""), None);
    assert_eq!(name("/"), None);
    assert_eq!(name("."), None);
    assert_eq!(name("./"), None);
    assert_eq!(name("a/.."), None);
    assert_eq!(name(".."), None);
    assert_eq!(name("/."), None);
}

#[test]
fn file_name_matches_std_on_samples() {
    let samples = [
        "/a/b/c.mp4", "a", "a/", "a//", "/a/./b/.", "a/b/..", "..a", ".hidden", "x/.y/", "//",
        "/ä/ö ü.mkv", "./.", "a/.../", "a/b/./c/.",
    ];
    for s in samples {
        let want = std::path::Path::new(s)
            .file_name()
            .map(|n| n.to_string_lossy().into_owned());
        assert_eq!(name(s), want, "path {s:?}");
    }
}

#[test]
fn decimal_text_values() {
    assert_eq!(decimal_text(0), "0");
    assert_eq!(decimal_text(7), "7");
    assert_eq!(decimal_text(10), "10");
    assert_eq!(decimal_text(2024), "2024");
    assert_eq!(decimal_text(u64::MAX), u64::MAX.to_string());
}

#[test]
fn whitespace_matches_std() {
    for u in 0u32..0x3100 {
        if let Some(c) = char::from_u32(u) {
            assert_eq!(char_is_whitespace(c), c.is_whitespace(), "U+{u:04X}");
        }
    }
}

#[test]
fn blank_text() {
    assert!(is_blank(""));
    assert!(is_blank(" \t\n\u{3000}"));
    assert!(!is_blank("  a "));
    assert!(!is_blank("Title"));
}
