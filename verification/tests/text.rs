use plux::text::{
    chars_of, contains, decimal, ends_with, is_whitespace, join_path, lines, replace, starts_with,
    str_eq, strip_prefix, trim,
};
use std::path::Path;

#[test]
fn chars_of_keeps_every_character_in_order() {
    assert_eq!(chars_of("a\u{e9}\u{1F600}z"), vec!['a', '\u{e9}', '\u{1F600}', 'z']);
    assert_eq!(chars_of(""), Vec::<char>::new());
}

#[test]
fn is_whitespace_agrees_with_char_on_every_scalar() {
    let mut code: u32 = 0;
    while code <= 0x10FFFF {
        if let Some(c) = char::from_u32(code) {
            assert_eq!(is_whitespace(c), c.is_whitespace(), "U+{:04X}", code);
        }
        code += 1;
    }
}

#[test]
fn trim_removes_surrounding_white_space_only() {
    assert_eq!(trim("  v1.0.0\n"), "v1.0.0");
    assert_eq!(trim("\t a b \r\n"), "a b");
    assert_eq!(trim("main"), "main");
    assert_eq!(trim(""), "");
    assert_eq!(trim(" \n\t "), "");
    assert_eq!(trim("\u{a0}\u{3000}x\u{2003}\u{85}"), "x");
}

#[test]
fn trim_agrees_with_str_trim() {
    let samples = [
        "", " ", "a", " a", "a ", " a ", "\n\na b\n\n", "\u{2028}x\u{2029}", "\u{200b}x\u{200b}",
        "\u{1680} y \u{205f}", "\u{feff}z", "é ", " \u{1F600} ", "\r\n", "x\u{0b}\u{0c}",
        "\u{1c}x\u{1f}",
    ];
    for sample in samples {
        assert_eq!(trim(sample), sample.trim(), "{:?}", sample);
    }
}

#[test]
fn str_eq_compares_characters() {
    assert!(str_eq("plux.tmux", "plux.tmux"));
    assert!(!str_eq("plux.tmux", "plux.tmu"));
    assert!(!str_eq("a", "b"));
    assert!(str_eq("", ""));
}

#[test]
fn starts_with_and_ends_with_agree_with_str() {
    let cases = [
        ("origin/main", "origin/"), ("origin", "origin/"), ("", ""), ("a", ""), ("", "a"),
        ("a.tmux", ".tmux"), (".tmux", ".tmux"), ("tmux", ".tmux"), ("xx", "x"),
    ];
    for (text, part) in cases {
        assert_eq!(starts_with(text, part), text.starts_with(part), "{:?} {:?}", text, part);
        assert_eq!(ends_with(text, part), text.ends_with(part), "{:?} {:?}", text, part);
    }
}

#[test]
fn strip_prefix_returns_the_rest() {
    assert_eq!(strip_prefix("origin/main", "origin/"), Some("main"));
    assert_eq!(strip_prefix("origin/", "origin/"), Some(""));
    assert_eq!(strip_prefix("upstream/main", "origin/"), None);
    assert_eq!(strip_prefix("é/x", "é/"), Some("x"));
}

#[test]
fn contains_agrees_with_str_contains() {
    let cases = [
        ("attached)", "attached"), ("detached", "attached"), ("", "attached"), ("abc", ""),
        ("", ""), ("aab", "ab"), ("aaa", "aaaa"), ("xattachedx", "attached"),
    ];
    for (hay, needle) in cases {
        assert_eq!(contains(hay, needle), hay.contains(needle), "{:?} {:?}", hay, needle);
    }
}

#[test]
fn decimal_agrees_with_to_string() {
    for n in [0u64, 1, 9, 10, 11, 99, 100, 500, 1000, 20_000, 4_294_967_295, u64::MAX] {
        assert_eq!(decimal(n), n.to_string());
    }
}

#[test]
fn join_path_agrees_with_path_join() {
    let cases = [
        ("/root/plux", "name"), ("/root/plux/", "name"), ("", "name"), ("/root", "/abs"),
        ("rel", "a.tmux"), ("/", "x"), ("/root/plux", ""),
    ];
    for (base, part) in cases {
        let expected = Path::new(base).join(part);
        assert_eq!(join_path(base, part), expected.to_str().unwrap(), "{:?} {:?}", base, part);
    }
}

#[test]
fn join_path_puts_one_slash_between() {
    assert_eq!(join_path("/home/u/.config/tmux/plux", "tmux-yank"), "/home/u/.config/tmux/plux/tmux-yank");
    assert_eq!(join_path("/home/u/.config/tmux/plux/", "tmux-yank"), "/home/u/.config/tmux/plux/tmux-yank");
}

#[test]
fn lines_agrees_with_str_lines() {
    let samples = [
        "", "a", "a\n", "a\nb", "a\r\nb\r\n", "\n", "\n\n", "a\r", "a\r\n", "\r\n\r\n", "a\n\nb",
        "a\rb\n", "x\r\r\ny",
    ];
    for sample in samples {
        let expected: Vec<String> = sample.lines().map(String::from).collect();
        assert_eq!(lines(sample), expected, "{:?}", sample);
    }
}

#[test]
fn replace_agrees_with_str_replace() {
    let cases = [
        ("$HOME/.config", "$HOME", "/home/u"), ("~/x", "~", "/home/u"), ("aaa", "aa", "b"),
        ("abc", "d", "e"), ("", "a", "b"), ("$HOM", "$HOME", "x"), ("$HOME$HOME", "$HOME", "~"),
        ("a$HOMEb$HOME", "$HOME", ""), ("ababab", "ab", "ba"),
    ];
    for (text, pattern, with) in cases {
        assert_eq!(replace(text, pattern, with), text.replace(pattern, with), "{:?}", text);
    }
}

#[test]
fn replace_leaves_text_alone_for_an_empty_pattern() {
    assert_eq!(replace("abc", "", "x"), "abc");
}
