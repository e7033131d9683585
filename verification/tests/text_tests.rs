use pwninit::text::{
    char_is_whitespace, copy_span, cut, line_spans, to_chars, trim_span, word_spans, Span,
};

fn chars(s: &str) -> Vec<char> {
    s.chars().collect()
}

fn pieces(text: &str, spans: Vec<Span>) -> Vec<String> {
    spans.into_iter().map(|span| cut(text, span).to_string()).collect()
}

#[test]
fn to_chars_keeps_every_character() {
    assert_eq!(to_chars("a\u{e9}\u{1F600}\n"), vec!['a', '\u{e9}', '\u{1F600}', '\n']);
    assert_eq!(to_chars(""), Vec::<char>::new());
}

#[test]
fn whitespace_is_what_std_calls_whitespace() {
    let mut code: u32 = 0;
    while code <= 0x10FFFF {
        if let Some(c) = char::from_u32(code) {
            assert_eq!(char_is_whitespace(c), c.is_whitespace(), "U+{:04X}", code);
        }
        code += 1;
    }
}

#[test]
fn copy_span_takes_the_middle() {
    assert_eq!(copy_span(&chars("abcdef"), Span { start: 2, end: 4 }), chars("cd"));
    assert_eq!(copy_span(&chars("abcdef"), Span { start: 3, end: 3 }), chars(""));
    assert_eq!(copy_span(&chars("abcdef"), Span { start: 0, end: 6 }), chars("abcdef"));
}

#[test]
fn cut_counts_characters_and_not_bytes() {
    assert_eq!(cut("a\u{e9}\u{1F600}bc", Span { start: 1, end: 3 }), "\u{e9}\u{1F600}");
    assert_eq!(cut("a\u{e9}\u{1F600}bc", Span { start: 3, end: 5 }), "bc");
    assert_eq!(cut("abc", Span { start: 3, end: 3 }), "");
    assert_eq!(cut("abc", Span { start: 0, end: 0 }), "");
}

#[test]
fn spans_name_characters() {
    assert_eq!(
        line_spans(&chars("\u{e9}\u{e9}\r\nb")),
        vec![Span { start: 0, end: 2 }, Span { start: 4, end: 5 }]
    );
    assert_eq!(
        word_spans(&chars(" \u{1F600} bc")),
        vec![Span { start: 1, end: 2 }, Span { start: 3, end: 5 }]
    );
    assert_eq!(trim_span(&chars("  a b \n")), Span { start: 2, end: 5 });
    assert_eq!(trim_span(&chars("   ")), Span { start: 3, end: 3 });
}

#[test]
fn lines_are_split_as_std_splits_them() {
    let samples = [
        "",
        "\n",
        "\n\n",
        "a",
        "a\n",
        "a\nb",
        "a\r\nb\r\n",
        "a\rb\n",
        "a\r",
        "\r\n",
        "\r",
        "a\n\nb\n",
        "first line\n  second\tline\r\n\r\nlast",
        "x\r\r\ny",
    ];
    for sample in samples {
        let expected: Vec<String> = sample.lines().map(|line| line.to_string()).collect();
        assert_eq!(pieces(sample, line_spans(&chars(sample))), expected, "{:?}", sample);
    }
}

#[test]
fn lines_keep_a_lone_carriage_return_at_the_end() {
    assert_eq!(
        pieces("a\nb\r", line_spans(&chars("a\nb\r"))),
        vec!["a".to_string(), "b\r".to_string()]
    );
}

#[test]
fn words_are_split_as_std_splits_them() {
    let samples = [
        "",
        " ",
        "a",
        " a ",
        "FROM ubuntu:20.04",
        "FROM\tubuntu:20.04   AS  build",
        "\u{a0}a\u{2003}b\u{3000}",
        "one\r\ntwo",
        "  leading and trailing  ",
    ];
    for sample in samples {
        let expected: Vec<String> = sample.split_whitespace().map(|w| w.to_string()).collect();
        assert_eq!(pieces(sample, word_spans(&chars(sample))), expected, "{:?}", sample);
    }
}

#[test]
fn trim_is_what_std_trims() {
    let samples = ["", " ", "\n", "abc", "  abc", "abc\n", " \t a b \r\n", "\u{a0}x\u{3000}", "a  b"];
    for sample in samples {
        assert_eq!(cut(sample, trim_span(&chars(sample))), sample.trim(), "{:?}", sample);
    }
}
