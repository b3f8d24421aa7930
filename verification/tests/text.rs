use cpa_route_control::text::{
    is_whitespace_char, matches_at, replace_occurrences, starts_with_char, strip_trailing_char,
    trim_whitespace,
};

#[test]
fn trim_matches_std_trim() {
    for s in [
        "",
        "   ",
        " a ",
        "\t\n a b \r\n",
        "\u{3000}全角\u{3000}",
        "\u{a0}x\u{2028}",
        "\u{200b}kept\u{200b}",
        "no-space",
    ] {
        assert_eq!(trim_whitespace(s), s.trim(), "input {:?}", s);
    }
}

#[test]
fn whitespace_class_matches_std() {
    for c in ['\t', '\n', '\u{b}', '\u{c}', '\r', ' ', '\u{85}', '\u{a0}', '\u{1680}', '\u{2000}',
        '\u{200a}', '\u{2028}', '\u{2029}', '\u{202f}', '\u{205f}', '\u{3000}', 'a', '\u{200b}',
        '\u{180e}', '\u{feff}', '0', '中']
    {
        assert_eq!(is_whitespace_char(c), c.is_whitespace(), "char {:?}", c);
    }
}

#[test]
fn strip_trailing_slashes() {
    assert_eq!(strip_trailing_char("http://h///", '/'), "http://h");
    assert_eq!(strip_trailing_char("///", '/'), "");
    assert_eq!(strip_trailing_char("a/b", '/'), "a/b");
}

#[test]
fn prefix_and_match_tests() {
    assert!(starts_with_char("/config", '/'));
    assert!(!starts_with_char("", '/'));
    assert!(matches_at("abcabc", "cab", 2));
    assert!(!matches_at("abcabc", "cab", 3));
    assert!(!matches_at("ab", "abc", 0));
    assert!(!matches_at("ab", "b", 5));
}

#[test]
fn replace_matches_std_replace() {
    for (s, p, r) in [
        ("aaa", "aa", "X"),
        ("abab", "ab", ""),
        ("密钥密钥x", "密钥", "[R]"),
        ("no match here", "zz", "Y"),
        ("", "a", "b"),
        ("xyz", "xyz", "xyz!"),
    ] {
        assert_eq!(replace_occurrences(s, p, r), s.replace(p, r), "input {:?}", (s, p, r));
    }
}
