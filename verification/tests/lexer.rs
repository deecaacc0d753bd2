use rpn_calc::lexer::{is_whitespace, tokens};

#[test]
fn whitespace_is_what_std_calls_whitespace() {
    for code in 0u32..=0x10FFFF {
        if let Some(c) = char::from_u32(code) {
            assert_eq!(is_whitespace(c), c.is_whitespace(), "U+{:04X}", code);
        }
    }
}

#[test]
fn tokens_of_a_plain_line() {
    assert_eq!(tokens("1 2 +"), vec!["1", "2", "+"]);
}

#[test]
fn tokens_ignore_space_around_and_between() {
    assert_eq!(tokens("  3\t4   *\n"), vec!["3", "4", "*"]);
    assert_eq!(tokens("x"), vec!["x"]);
    assert_eq!(tokens(" x"), vec!["x"]);
    assert_eq!(tokens("x "), vec!["x"]);
}

#[test]
fn empty_and_blank_lines_have_no_tokens() {
    assert!(tokens("").is_empty());
    assert!(tokens("   ").is_empty());
    assert!(tokens("\t\n\r").is_empty());
}

#[test]
fn tokens_split_at_unicode_space() {
    assert_eq!(tokens("1\u{a0}2\u{3000}+"), vec!["1", "2", "+"]);
    assert_eq!(tokens("π\u{2003}é"), vec!["π", "é"]);
}

#[test]
fn tokens_agree_with_split_whitespace() {
    let lines = [
        "",
        " ",
        "1 2 +",
        "  lead",
        "trail  ",
        "a\tb\nc\rd",
        "8 2 log",
        "-5 abs",
        "x\u{85}y\u{1680}z\u{2028}w\u{2029}v\u{202f}u\u{205f}t",
        "no_space_at_all",
        "ünï cødé  ✓",
        "+ - * / % ^",
    ];
    for line in lines {
        let want: Vec<String> = line.split_whitespace().map(String::from).collect();
        assert_eq!(tokens(line), want, "line {:?}", line);
    }
}
