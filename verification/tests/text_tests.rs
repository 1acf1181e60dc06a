use aichdl::text::{
    chars_of, contains, is_blank, is_white_space_char, join_lines, push_i64, push_pad2, str_eq,
    trim, truncate, usize_text,
};

#[test]
fn decimal_text_matches_display() {
    for n in [0usize, 7, 10, 99, 100, 12345, usize::MAX] {
        assert_eq!(usize_text(n), n.to_string());
    }
    for n in [0i64, -1, 9, -9, 10, -10, i64::MIN, i64::MAX, 86399] {
        let mut s = String::new();
        push_i64(&mut s, n);
        assert_eq!(s, n.to_string());
    }
}

#[test]
fn pad2_matches_zero_padded_format() {
    for n in [0i64, 5, 9, 10, 59, 99, 100, -1, -9, -10, -59, i64::MIN] {
        let mut s = String::new();
        push_pad2(&mut s, n);
        assert_eq!(s, format!("{:02}", n));
    }
}

#[test]
fn white_space_matches_std_for_every_char() {
    for u in 0u32..=0x10FFFF {
        if let Some(c) = char::from_u32(u) {
            assert_eq!(is_white_space_char(c), c.is_whitespace(), "{:#x}", u);
        }
    }
}

#[test]
fn trim_matches_std() {
    for s in ["", "   ", " a ", "\t\n你好\u{3000}", "a b", "\u{2028}x\u{85}", "  多 行\n文本  \n"] {
        assert_eq!(trim(s), s.trim());
        assert_eq!(is_blank(s), s.trim().is_empty());
    }
}

#[test]
fn contains_matches_std() {
    let cases = [
        ("Rust 入门", "Rust"),
        ("Rust 入门", "入门"),
        ("Rust 入门", ""),
        ("", ""),
        ("", "a"),
        ("abc", "abcd"),
        ("aaab", "aab"),
        ("游戏开发", "开发者"),
    ];
    for (h, n) in cases {
        assert_eq!(contains(h, n), h.contains(n), "{:?} {:?}", h, n);
    }
}

#[test]
fn equality_matches_std() {
    let words = ["", "a", "b", "ab", "abc", "第9天 10:00", "第10天 10:00", "第10天 09:59", "Ω", "z", "中"];
    for a in words {
        for b in words {
            assert_eq!(str_eq(a, b), a == b);
        }
    }
}

#[test]
fn chars_of_lists_the_characters() {
    assert_eq!(chars_of("a中b"), vec!['a', '中', 'b']);
}

#[test]
fn truncate_keeps_short_text() {
    assert_eq!(truncate("hello", 5), "hello");
    assert_eq!(truncate("", 0), "");
}

#[test]
fn truncate_cuts_long_text() {
    // ten characters over a limit of five: the first five are kept
    assert_eq!(truncate("helloworld", 5), "hello...");
    // the limit counts characters, not bytes
    assert_eq!(truncate("你好吗", 5), "你好吗");
    assert_eq!(truncate("你好吗", 2), "你好...");
    assert_eq!(truncate("abcdef", 3), "abc...");
    assert_eq!(truncate("你好", 5), "你好");
    assert_eq!(truncate("你好吗", 9), "你好吗");
    assert_eq!(truncate("abc", 0), "...");
}

#[test]
fn join_lines_puts_newlines_between() {
    let parts = vec!["a".to_string(), "".to_string(), "c".to_string()];
    assert_eq!(join_lines(&parts), "a\n\nc");
    assert_eq!(join_lines(&Vec::new()), "");
    assert_eq!(join_lines(&vec!["only".to_string()]), "only");
}
