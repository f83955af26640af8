use xbuild::path::{file_name, join, parent};
use xbuild::text::{
    chars_of, contains_char, decimal_text, ends_with, nth_segment, same_text, starts_with, trim,
    trim_matches,
};

#[test]
fn chars_of_keeps_every_character() {
    assert_eq!(chars_of("a/ü:"), vec!['a', '/', 'ü', ':']);
    assert_eq!(chars_of(""), Vec::<char>::new());
}

#[test]
fn trim_removes_white_space_at_both_ends() {
    assert_eq!(trim("  5.10.0-arch1 \n"), "5.10.0-arch1");
    assert_eq!(trim("\t\r\n x y \u{a0}\u{3000}"), "x y");
    assert_eq!(trim("abc"), "abc");
    assert_eq!(trim(" \n "), "");
    assert_eq!(trim(""), "");
}

#[test]
fn trim_agrees_with_std_on_unicode_spaces() {
    let samples = [
        "\u{85}a\u{1680}",
        "\u{2000}b\u{200a}",
        "\u{2028}c\u{2029}",
        "\u{202f}d\u{205f}",
        "\u{200b}e\u{200b}",
        "\u{0b}f\u{0c}",
    ];
    for s in samples {
        assert_eq!(trim(s), s.trim());
    }
}

#[test]
fn trim_matches_removes_only_the_given_character() {
    assert_eq!(trim_matches("\"Arch Linux\"", '"'), "Arch Linux");
    assert_eq!(trim_matches("\"\"a\"b\"", '"'), "a\"b");
    assert_eq!(trim_matches("plain", '"'), "plain");
    assert_eq!(trim_matches("\"\"", '"'), "");
    assert_eq!(trim_matches(" \"x\" ", '"'), " \"x\" ");
}

#[test]
fn nth_segment_counts_from_zero() {
    let marker = "flutter_infra_release/flutter/fonts/bd151aa3c2f7231344411a01dba4ef61b3cd56b2/fonts.zip";
    assert_eq!(
        nth_segment(marker, '/', 3),
        Some("bd151aa3c2f7231344411a01dba4ef61b3cd56b2".to_string())
    );
    assert_eq!(nth_segment(marker, '/', 0), Some("flutter_infra_release".to_string()));
    assert_eq!(nth_segment(marker, '/', 4), Some("fonts.zip".to_string()));
    assert_eq!(nth_segment(marker, '/', 5), None);
    assert_eq!(nth_segment("a//b", '/', 1), Some(String::new()));
    assert_eq!(nth_segment("", '/', 0), Some(String::new()));
    assert_eq!(nth_segment("", '/', 1), None);
    assert_eq!(nth_segment("a/", '/', 1), Some(String::new()));
}

#[test]
fn decimal_text_writes_numbers() {
    assert_eq!(decimal_text(0), "0");
    assert_eq!(decimal_text(7), "7");
    assert_eq!(decimal_text(10), "10");
    assert_eq!(decimal_text(404), "404");
    assert_eq!(decimal_text(1234567890), "1234567890");
    assert_eq!(decimal_text(u64::MAX), "18446744073709551615");
}

#[test]
fn contains_char_finds_colons() {
    assert!(contains_char("usr/share/man/man3/Tcl::Tk.3", ':'));
    assert!(!contains_char("usr/share/man/man3/TclTk.3", ':'));
    assert!(!contains_char("", ':'));
}

#[test]
fn prefixes_and_suffixes() {
    assert!(starts_with("http://127.0.0.1:4000/", "http://127.0.0.1"));
    assert!(!starts_with("http://127.0.0", "http://127.0.0.1"));
    assert!(starts_with("abc", ""));
    assert!(ends_with("Windows.sdk.tar.zst", ".tar.zst"));
    assert!(!ends_with("zst", ".tar.zst"));
    assert!(ends_with("abc", "abc"));
    assert!(!ends_with("abc", "abd"));
    assert!(same_text("linux", "linux"));
    assert!(!same_text("linux", "Linux"));
}

#[test]
fn join_puts_one_separator_between() {
    assert_eq!(join("/cache", "engine"), "/cache/engine");
    assert_eq!(join("", "engine"), "/engine");
    assert_eq!(join("a", ""), "a/");
}

#[test]
fn file_name_is_what_follows_the_last_separator() {
    assert_eq!(file_name("/build/App.framework/App"), "App");
    assert_eq!(file_name("App"), "App");
    assert_eq!(file_name("a/b/"), "");
    assert_eq!(file_name(""), "");
    assert_eq!(
        file_name("https://github.com/cloudpeers/x/releases/download/v0.1.0+2/MacOSX.sdk.tar.zst"),
        "MacOSX.sdk.tar.zst"
    );
}

#[test]
fn parent_is_what_precedes_the_last_separator() {
    assert_eq!(parent("/cache/Windows.sdk"), Some("/cache".to_string()));
    assert_eq!(parent("/Windows.sdk"), Some("/".to_string()));
    assert_eq!(parent("Windows.sdk"), Some(String::new()));
    assert_eq!(parent("a/b/c"), Some("a/b".to_string()));
    assert_eq!(parent("/"), None);
    assert_eq!(parent(""), None);
}
