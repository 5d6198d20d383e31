use gwtr::text::{
    chars_of, contains, copy_range, decimal_text, is_space_char, matches_at, same_text,
    split_lines, starts_with, string_of, text_of, trimmed,
};

fn chars(s: &str) -> Vec<char> {
    s.chars().collect()
}

fn lines(s: &str) -> Vec<String> {
    split_lines(&chars(s)).iter().map(|l| l.iter().collect()).collect()
}

fn trim(s: &str) -> String {
    trimmed(&chars(s)).iter().collect()
}

#[test]
fn chars_and_back() {
    for s in ["", "a", "worktree /tmp/x", "ünïcödé ✓", "line\nbreak\r\n"] {
        assert_eq!(chars_of(s), chars(s));
        assert_eq!(text_of(&chars(s)), s);
    }
}

#[test]
fn string_of_takes_a_range() {
    let v = chars("hello world");
    assert_eq!(string_of(&v, 0, 5), "hello");
    assert_eq!(string_of(&v, 6, 11), "world");
    assert_eq!(string_of(&v, 3, 3), "");
    assert_eq!(copy_range(&v, 4, 7), chars("o w"));
}

#[test]
fn lines_are_split_as_std_splits_them() {
    for s in [
        "",
        "\n",
        "a",
        "a\n",
        "a\nb",
        "a\n\nb\n",
        "a\r\nb\r\n",
        "a\rb\n",
        "a\r",
        "\r\n",
        "\r\n\r\n",
        "a\r\r\n",
        "one\ntwo\nthree",
        "\n\n\n",
        "ends with return\r",
    ] {
        let expected: Vec<String> = s.lines().map(|l| l.to_string()).collect();
        assert_eq!(lines(s), expected, "{s:?}");
    }
}

#[test]
fn lines_of_a_listing() {
    assert_eq!(
        lines("worktree /a\nHEAD 1\nbranch refs/heads/main\n\nworktree /b\nbare\n"),
        ["worktree /a", "HEAD 1", "branch refs/heads/main", "", "worktree /b", "bare"]
    );
    assert_eq!(lines(""), Vec::<String>::new());
    assert_eq!(lines("\n"), [""]);
}

#[test]
fn trimming_takes_white_space_from_both_ends() {
    for s in [
        "",
        " ",
        "a",
        "  a  ",
        "\t\n a b \r\n",
        "* main",
        "  feature-a",
        "\u{a0}x\u{2003}",
        "\u{3000}\u{85}y\u{1680}\u{2028}\u{2029}\u{202f}\u{205f}",
        "\u{200b}z\u{200b}",
        "\u{b}\u{c}w\u{1c}",
    ] {
        assert_eq!(trim(s), s.trim(), "{s:?}");
    }
}

#[test]
fn white_space_is_what_std_calls_white_space() {
    for n in 0..=0x3100u32 {
        if let Some(c) = char::from_u32(n) {
            assert_eq!(is_space_char(c), c.is_whitespace(), "{n:#x}");
        }
    }
    assert!(!is_space_char('\u{feff}'));
    assert!(!is_space_char('\u{10ffff}'));
}

#[test]
fn prefixes_and_parts() {
    let s = chars("worktree /tmp/repo");
    assert!(starts_with(&s, &chars("worktree ")));
    assert!(starts_with(&s, &chars("")));
    assert!(starts_with(&s, &s));
    assert!(!starts_with(&s, &chars("worktree  ")));
    assert!(!starts_with(&chars("work"), &chars("worktree ")));
    assert!(matches_at(&s, &chars("/tmp"), 9));
    assert!(!matches_at(&s, &chars("/tmp"), 10));
    assert!(!matches_at(&s, &chars("repo!"), 14));
    assert!(matches_at(&s, &chars(""), 18));
    assert!(!matches_at(&s, &chars(""), 19));
    assert!(!matches_at(&s, &chars("x"), usize::MAX));
}

#[test]
fn containing() {
    let s = chars("fatal: a branch named 'x' already exists");
    assert!(contains(&s, &chars("already exists")));
    assert!(contains(&s, &chars("fatal")));
    assert!(contains(&s, &chars("")));
    assert!(contains(&chars(""), &chars("")));
    assert!(!contains(&chars(""), &chars("a")));
    assert!(!contains(&s, &chars("already exists!")));
    assert!(!contains(&s, &chars("Already")));
    assert!(contains(&chars("aaab"), &chars("aab")));
    assert!(!contains(&chars("aaab"), &chars("aba")));
}

#[test]
fn same_text_compares_characters() {
    assert!(same_text("main", "main"));
    assert!(same_text("", ""));
    assert!(!same_text("main", "main "));
    assert!(!same_text("main", "Main"));
    assert!(!same_text("", "a"));
}

#[test]
fn decimal_numbers() {
    assert_eq!(decimal_text(0), "0");
    assert_eq!(decimal_text(7), "7");
    assert_eq!(decimal_text(10), "10");
    assert_eq!(decimal_text(1234567890), "1234567890");
    assert_eq!(decimal_text(usize::MAX), usize::MAX.to_string());
    for n in 0..2000usize {
        assert_eq!(decimal_text(n), n.to_string());
    }
}
