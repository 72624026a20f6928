use launcher_plugins::text::{
    chars_of, contains, domain_of, is_whitespace_char, same_text, strip_keyword, trimmed,
    truncate_string,
};

#[test]
fn test_truncate_string_short() {
    assert_eq!(truncate_string("hello", 10), "hello");
}

#[test]
fn test_truncate_string_exact() {
    assert_eq!(truncate_string("hello", 5), "hello");
}

#[test]
fn test_truncate_string_long() {
    assert_eq!(truncate_string("hello world", 8), "hello...");
}

#[test]
fn test_truncate_string_unicode() {
    let s = "héllo wörld";
    let truncated = truncate_string(s, 8);
    assert_eq!(truncated, "héllo...");
}

#[test]
fn truncate_string_never_exceeds_a_budget_of_four_or_more() {
    let samples = ["", "a", "abcd", "abcde", "héllo wörld", "日本語のテキストです", "x y z w v u t"];
    for s in samples {
        for max in 4..20usize {
            let out = truncate_string(s, max);
            let n = s.chars().count();
            assert!(out.chars().count() <= max);
            if n <= max {
                assert_eq!(out, s);
            } else {
                assert!(out.ends_with("..."));
                assert_eq!(out.chars().count(), max);
                let head: String = s.chars().take(max - 3).collect();
                assert!(out.starts_with(&head));
            }
        }
    }
}

#[test]
fn truncate_string_with_a_tiny_budget_is_the_marker() {
    assert_eq!(truncate_string("hello", 0), "...");
    assert_eq!(truncate_string("hello", 2), "...");
    assert_eq!(truncate_string("hello", 3), "...");
    assert_eq!(truncate_string("hello", 4), "h...");
    assert_eq!(truncate_string("", 0), "");
}

#[test]
fn chars_of_counts_characters_not_bytes() {
    assert_eq!(chars_of("héllo"), vec!['h', 'é', 'l', 'l', 'o']);
    assert_eq!(chars_of(""), Vec::<char>::new());
}

#[test]
fn whitespace_is_what_the_standard_library_calls_whitespace() {
    let mut code: u32 = 0;
    while code <= 0x10FFFF {
        if let Some(c) = char::from_u32(code) {
            assert_eq!(is_whitespace_char(c), c.is_whitespace(), "U+{:04X}", code);
        }
        code += 1;
    }
}

#[test]
fn trimmed_removes_whitespace_at_both_ends_only() {
    assert_eq!(trimmed("  a b \n"), "a b");
    assert_eq!(trimmed("\u{3000}x\u{2003}"), "x");
    assert_eq!(trimmed("   "), "");
    assert_eq!(trimmed(""), "");
    assert_eq!(trimmed("secret"), "secret");
    for s in ["  a b \n", " \t", "é ", " \u{a0}ö\u{a0} x"] {
        assert_eq!(trimmed(s), s.trim());
    }
}

#[test]
fn strip_keyword_removes_one_keyword_and_the_whitespace_around() {
    assert_eq!(strip_keyword("bw github", "bw "), "github");
    assert_eq!(strip_keyword("bw   github  ", "bw "), "github");
    assert_eq!(strip_keyword("bw ", "bw "), "");
    assert_eq!(strip_keyword("bw", "bw "), "bw");
    assert_eq!(strip_keyword("github", "bw "), "github");
    assert_eq!(strip_keyword("  bw github", "bw "), "bw github");
    assert_eq!(strip_keyword("bw bw x", "bw "), "bw x");
    assert_eq!(strip_keyword("exa rust verification", "exa "), "rust verification");
    assert_eq!(strip_keyword("", "bw "), "");
}

#[test]
fn contains_finds_a_run_of_characters() {
    assert!(contains("Error: Invalid session token", "Invalid session"));
    assert!(contains("You are not logged in.", "not logged in"));
    assert!(!contains("Invalid sessio", "Invalid session"));
    assert!(contains("abc", ""));
    assert!(contains("", ""));
    assert!(!contains("", "a"));
    assert!(contains("aab", "ab"));
    assert!(contains("héllo", "éll"));
    assert!(!contains("hello", "Hello"));
}

#[test]
fn same_text_compares_whole_strings() {
    assert!(same_text("Exit", "Exit"));
    assert!(!same_text("Exit", "Exi"));
    assert!(!same_text("Exit", "Exit "));
    assert!(!same_text("Exit", "exit"));
    assert!(same_text("", ""));
}

#[test]
fn domain_of_drops_the_scheme_and_the_path() {
    assert_eq!(domain_of("https://example.com/path"), "example.com");
    assert_eq!(domain_of("http://example.com"), "example.com");
    assert_eq!(domain_of("example.com/a/b"), "example.com");
    assert_eq!(domain_of("https://https://example.com/x"), "example.com");
    assert_eq!(domain_of("https://http://example.com/x"), "example.com");
    assert_eq!(domain_of("http://https://example.com/x"), "https:");
    assert_eq!(domain_of("ftp://example.com/x"), "ftp:");
    assert_eq!(domain_of("/only/path"), "");
    assert_eq!(domain_of(""), "");
    assert_eq!(domain_of("https://bücher.example/ü"), "bücher.example");
}

#[test]
fn helpers_agree_with_the_standard_library() {
    let samples = [
        "",
        " ",
        "bw ",
        "bw  git  ",
        " bw git",
        "https://example.com/a/b",
        "https://https://http://x.org/",
        "http://https://x.org",
        "httpss://x",
        "Invalid session",
        "x not logged in y",
        "\u{2028}wide\u{3000}",
        "héllo wörld / ü",
        "////",
    ];
    let needles = ["", " ", "/", "Invalid session", "not logged in", "http", "ö", "://"];
    for s in samples {
        assert_eq!(trimmed(s), s.trim());
        assert_eq!(
            domain_of(s),
            s.trim_start_matches("https://").trim_start_matches("http://").split('/').next().unwrap()
        );
        for keyword in ["bw ", "exa ", ""] {
            assert_eq!(strip_keyword(s, keyword), s.strip_prefix(keyword).unwrap_or(s).trim());
        }
        for needle in needles {
            assert_eq!(contains(s, needle), s.contains(needle));
            assert_eq!(same_text(s, needle), s == needle);
        }
        for max in 0..12usize {
            let chars: Vec<char> = s.chars().collect();
            let expected = if chars.len() <= max {
                s.to_string()
            } else {
                chars[..max.saturating_sub(3)].iter().collect::<String>() + "..."
            };
            assert_eq!(truncate_string(s, max), expected);
        }
    }
}
