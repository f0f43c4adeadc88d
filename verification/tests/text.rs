use rust_analyzer_bridge::text::{chars_of, contains, split_lines, starts_at, string_of};

fn cs(s: &str) -> Vec<char> {
    s.chars().collect()
}

fn lines(s: &str) -> Vec<String> {
    let chars = chars_of(s);
    split_lines(&chars).into_iter().map(|(a, b)| string_of(&chars[a..b])).collect()
}

fn std_lines(s: &str) -> Vec<String> {
    s.lines().map(|l| l.to_string()).collect()
}

#[test]
fn chars_of_lists_every_character() {
    assert_eq!(chars_of(""), Vec::<char>::new());
    assert_eq!(chars_of("abc"), vec!['a', 'b', 'c']);
    assert_eq!(chars_of("é→x"), vec!['é', '→', 'x']);
}

#[test]
fn string_of_builds_the_text() {
    assert_eq!(string_of(&[]), "");
    assert_eq!(string_of(&['h', 'i']), "hi");
    assert_eq!(string_of(&cs("naïve → ok")), "naïve → ok");
}

#[test]
fn string_of_undoes_chars_of() {
    let text = "error: é\r\nwarning: ü\n";
    assert_eq!(string_of(&chars_of(text)), text);
}

#[test]
fn starts_at_checks_one_position() {
    let hay = cs("an error: here");
    let needle = cs("error:");
    assert!(starts_at(&hay, &needle, 3));
    assert!(!starts_at(&hay, &needle, 2));
    assert!(!starts_at(&hay, &needle, 4));
    assert!(!starts_at(&hay, &needle, 9));
    assert!(!starts_at(&hay, &needle, 100));
    assert!(starts_at(&hay, &[], 14));
    assert!(!starts_at(&hay, &[], 15));
}

#[test]
fn contains_finds_a_needle_anywhere() {
    let needle = cs("error:");
    assert!(contains(&cs("error: x"), &needle));
    assert!(contains(&cs("x error:"), &needle));
    assert!(contains(&cs("xx error: yy"), &needle));
    assert!(contains(&cs("error:"), &needle));
    assert!(!contains(&cs("error"), &needle));
    assert!(!contains(&cs("error :"), &needle));
    assert!(!contains(&cs("Error:"), &needle));
    assert!(!contains(&cs("rror:"), &needle));
    assert!(!contains(&cs(""), &needle));
}

#[test]
fn contains_finds_the_empty_needle_everywhere() {
    assert!(contains(&cs(""), &[]));
    assert!(contains(&cs("abc"), &[]));
}

#[test]
fn contains_agrees_with_std() {
    let hays = ["", "a", "aa", "aab", "abab", "ababa", "bbbab", "xerror:warning:"];
    let needles = ["", "a", "ab", "aba", "b", "bab", "error:", "warning:", "abc"];
    for hay in hays {
        for needle in needles {
            assert_eq!(contains(&cs(hay), &cs(needle)), hay.contains(needle));
        }
    }
}

#[test]
fn split_lines_of_empty_text_is_empty() {
    assert_eq!(split_lines(&[]), Vec::<(usize, usize)>::new());
}

#[test]
fn split_lines_gives_positions() {
    let chars = cs("ab\ncd\r\n\nef");
    assert_eq!(split_lines(&chars), vec![(0, 2), (3, 5), (7, 7), (8, 10)]);
}

#[test]
fn split_lines_drops_the_final_terminator() {
    assert_eq!(lines("a\nb\n"), vec!["a", "b"]);
    assert_eq!(lines("a\nb"), vec!["a", "b"]);
    assert_eq!(lines("\n"), vec![""]);
    assert_eq!(lines("\n\n"), vec!["", ""]);
}

#[test]
fn split_lines_handles_carriage_returns() {
    assert_eq!(lines("foo\nbar\n\r\nbaz\r"), vec!["foo", "bar", "", "baz\r"]);
    assert_eq!(lines("a\r\r\nb"), vec!["a\r", "b"]);
    assert_eq!(lines("a\rb\n"), vec!["a\rb"]);
    assert_eq!(lines("\r\n"), vec![""]);
    assert_eq!(lines("\r"), vec!["\r"]);
}

#[test]
fn split_lines_agrees_with_std() {
    let texts = [
        "",
        "x",
        "\n",
        "\r",
        "\r\n",
        "\n\r",
        "a\nb",
        "a\r\nb\r\n",
        "a\n\nb\n\n",
        "a\r",
        "a\r\n\r",
        "\r\r\n\n\r\n",
        "error: é\r\nwarning: ü\n",
    ];
    for text in texts {
        assert_eq!(lines(text), std_lines(text));
    }
}
