use bubbaloop::text::{
    comes_before, contains, join, lines, number, signed_number, split, strip_prefix, trim,
    trim_end_char, words, without,
};

fn list(items: &[&str]) -> Vec<String> {
    items.iter().map(|s| s.to_string()).collect()
}

#[test]
fn splitting_agrees_with_std() {
    let samples = ["", "a", "/", "a/b", "//a/", "\u{e4}/\u{4e2d}", "a b\tc", " \u{2003}x\r\n y ", "x\r", "a\r\n\r\nb\n"];
    for s in samples {
        assert_eq!(split(s, '/'), s.split('/').collect::<Vec<_>>(), "split {:?}", s);
        assert_eq!(words(s), s.split_whitespace().collect::<Vec<_>>(), "words {:?}", s);
        assert_eq!(lines(s), s.lines().collect::<Vec<_>>(), "lines {:?}", s);
        assert_eq!(trim(s), s.trim(), "trim {:?}", s);
        assert_eq!(trim_end_char(s, '/'), s.trim_end_matches('/'), "end {:?}", s);
    }
}

#[test]
fn joining_agrees_with_std() {
    assert_eq!(join(&list(&[]), ", "), "");
    assert_eq!(join(&list(&["a"]), ", "), "a");
    assert_eq!(join(&list(&["a", "", "b"]), ", "), "a, , b");
}

#[test]
fn text_is_ordered_as_in_std() {
    let samples = ["", "a", "ab", "b", "B", "\u{e4}", "a\u{10ffff}", "a\u{ffff}"];
    for a in samples {
        for b in samples {
            assert_eq!(comes_before(a, b), a < b, "{:?} {:?}", a, b);
        }
    }
}

#[test]
fn numbers_are_written_as_in_std() {
    for n in [0u64, 7, 10, 99, 100, 1234567890, u64::MAX] {
        assert_eq!(number(n), n.to_string());
    }
    for n in [0i64, -1, 42, -100, i64::MAX, i64::MIN] {
        assert_eq!(signed_number(n), n.to_string());
    }
}

#[test]
fn lists_of_text() {
    let v = list(&["a", "b", "a"]);
    assert!(contains(&v, "b"));
    assert!(!contains(&v, "c"));
    assert_eq!(without(&v, "a"), list(&["b"]));
    assert_eq!(strip_prefix("Added node: x", "Added node: "), Some("x"));
    assert_eq!(strip_prefix("Added", "Added node: "), None);
}

#[test]
fn every_white_space_is_trimmed() {
    for n in 0..0x11_0000u32 {
        if let Some(c) = char::from_u32(n) {
            let s = c.to_string();
            assert_eq!(trim(&s).is_empty(), c.is_whitespace(), "U+{:04X}", n);
            let listed = (0x9..=0xd).contains(&n)
                || n == 0x20
                || n == 0x85
                || n == 0xa0
                || n == 0x1680
                || (0x2000..=0x200a).contains(&n)
                || n == 0x2028
                || n == 0x2029
                || n == 0x202f
                || n == 0x205f
                || n == 0x3000;
            assert_eq!(c.is_whitespace(), listed, "U+{:04X}", n);
        }
    }
}

#[test]
fn leading_ascii_is_lowered_by_itself() {
    for s in ["", "ABC", "Cargo \u{3a3}", "aZ\u{130}Q", "\u{3a3}A"] {
        let lowered: Vec<char> = s.to_lowercase().chars().collect();
        let start: Vec<char> = s
            .chars()
            .take_while(|c| c.is_ascii())
            .map(|c| c.to_ascii_lowercase())
            .collect();
        assert_eq!(&lowered[..start.len()], &start[..], "{:?}", s);
        if s.is_ascii() {
            assert_eq!(lowered.len(), start.len());
        }
    }
}

#[test]
fn ascii_starts_stay_when_text_follows() {
    let starts = ["MA\u{212a}E \u{3a3}", "\u{130}x", "ab\u{3a3}", "\u{3a3}", "a\u{3a3}b \u{3a3}"];
    let ends = ["", "x", " x", "\u{3a3}", ".", "\u{301}"];
    for a in starts {
        let ascii: String = a.to_lowercase().chars().take_while(|c| c.is_ascii()).collect();
        for b in ends {
            let longer = format!("{}{}", a, b).to_lowercase();
            assert!(longer.starts_with(&ascii), "{:?} {:?}", a, b);
        }
    }
}
