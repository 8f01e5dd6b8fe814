use mullvad_core::text::{
    append_chars, chars_of, contains, find, lines, matches_at, replace_all, same_chars, same_text,
    slice_chars,
};

fn chars(text: &str) -> Vec<char> {
    text.chars().collect()
}

fn replace(hay: &str, from: &str, to: &str) -> String {
    replace_all(&chars(hay), &chars(from), &chars(to)).iter().collect()
}

fn split_lines(text: &str) -> Vec<String> {
    lines(&chars(text)).iter().map(|line| line.iter().collect()).collect()
}

#[test]
fn strings_are_read_character_by_character() {
    assert_eq!(vec!['h', '\u{e9}', '!'], chars_of("h\u{e9}!"));
    assert_eq!(vec!['\u{1F600}'], chars_of("\u{1F600}"));
    assert!(chars_of("").is_empty());
}

#[test]
fn matches_at_checks_bounds() {
    let hay = chars("abcabc");
    assert!(matches_at(&hay, 3, &chars("abc")));
    assert!(!matches_at(&hay, 4, &chars("abc")));
    assert!(matches_at(&hay, 6, &chars("")));
    assert!(!matches_at(&hay, 7, &chars("")));
    assert!(!matches_at(&hay, 1, &chars("abc")));
}

#[test]
fn find_returns_the_leftmost_match() {
    assert_eq!(Some(1), find(&chars("a: b: c"), &chars(": ")));
    assert_eq!(Some(0), find(&chars("abc"), &chars("")));
    assert_eq!(Some(0), find(&chars(""), &chars("")));
    assert_eq!(None, find(&chars("abc"), &chars("abcd")));
    assert_eq!(None, find(&chars("a:b"), &chars(": ")));
    assert_eq!(Some(4), find(&chars("aaaaab"), &chars("ab")));
}

#[test]
fn contains_agrees_with_std() {
    assert!(contains(&chars("/var/log/openvpn.log"), &chars("openvpn")));
    assert!(!contains(&chars("/var/log/daemon.log"), &chars("openvpn")));
    assert!(contains(&chars(""), &chars("")));
}

#[test]
fn replace_all_agrees_with_std() {
    let cases = [
        ("", "", "-"),
        ("abc", "", "-"),
        ("aaaa", "aa", "b"),
        ("aaa", "aa", "b"),
        ("abcabc", "bc", ""),
        ("abc", "abcd", "x"),
        ("a\r\nb\r\n", "\r\n", "\n"),
        ("h\u{e9}llo h\u{e9}", "h\u{e9}", "[REDACTED]"),
        ("xyz", "y", "yy"),
        ("", "a", "b"),
    ];
    for (hay, from, to) in cases {
        assert_eq!(hay.replace(from, to), replace(hay, from, to), "{:?} {:?} {:?}", hay, from, to);
    }
    assert_eq!("-a-b-c-", replace("abc", "", "-"));
    assert_eq!("ba", replace("aaa", "aa", "b"));
}

#[test]
fn lines_agree_with_std() {
    let cases = [
        "",
        "\n",
        "a",
        "a\n",
        "a\nb",
        "a\n\nb\n",
        "a\r\nb\r\n",
        "a\rb\r",
        "a\r",
        "\r\n",
        "\r",
        "a\r\r\nb",
        "\n\n",
    ];
    for text in cases {
        let expected: Vec<String> = text.lines().map(|line| line.to_owned()).collect();
        assert_eq!(expected, split_lines(text), "{:?}", text);
    }
    assert_eq!(vec!["a".to_owned(), "".to_owned(), "b".to_owned()], split_lines("a\r\n\nb"));
}

#[test]
fn slices_and_appends() {
    assert_eq!(chars("bc"), slice_chars(&chars("abcd"), 1, 3));
    assert!(slice_chars(&chars("abcd"), 2, 2).is_empty());
    let mut out = chars("ab");
    append_chars(&mut out, &chars("cd"));
    assert_eq!(chars("abcd"), out);
}

#[test]
fn same_text_compares_characters() {
    assert!(same_text("id", "id"));
    assert!(!same_text("id", "ids"));
    assert!(!same_text("id", "iD"));
    assert!(same_chars(&chars(""), &chars("")));
    assert!(!same_chars(&chars("a"), &chars("b")));
}
