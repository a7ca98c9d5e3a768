use pathtracer::text::{
    find_byte, find_space, is_whitespace, parse_index, space_len, split_lines, split_whitespace,
    Span,
};

fn index(t: &str) -> Option<isize> {
    parse_index(t.as_bytes(), 0, t.len())
}

fn pieces(t: &str, spans: &Vec<Span>) -> Vec<String> {
    spans.iter().map(|s| t[s.start..s.end].to_string()).collect()
}

#[test]
fn white_space_is_what_unicode_calls_so() {
    let mut spaces = 0;
    for code in 0u32..=0x10ffff {
        let Some(c) = char::from_u32(code) else { continue };
        let mut buffer = [0u8; 4];
        let bytes = c.encode_utf8(&mut buffer).as_bytes();
        let expected = if c.is_whitespace() { bytes.len() } else { 0 };
        assert_eq!(space_len(bytes, 0, bytes.len()), expected, "U+{:04X}", code);
        if c.is_whitespace() {
            spaces += 1;
        }
    }
    assert_eq!(spaces, 25);
}

#[test]
fn space_len_stays_before_the_end() {
    let t = "a\u{3000}b\u{a0}".as_bytes();
    assert_eq!(space_len(t, 0, t.len()), 0);
    assert_eq!(space_len(t, 1, t.len()), 3);
    assert_eq!(space_len(t, 1, 4), 3);
    assert_eq!(space_len(t, 1, 3), 0);
    assert_eq!(space_len(t, 2, t.len()), 0);
    assert_eq!(space_len(t, 3, t.len()), 0);
    assert_eq!(space_len(t, 5, t.len()), 2);
    assert_eq!(space_len(t, 5, 6), 0);
    assert_eq!(space_len(t, 6, t.len()), 0);
    assert_eq!(space_len(t, 7, t.len()), 0);
}

#[test]
fn split_whitespace_splits_on_unicode_white_space() {
    for t in [
        "v\u{a0}1 2 3",
        "a\u{3000}b",
        "\u{2003}",
        "a\u{85}b",
        "x\u{1680}y\u{2028}z\u{2029}w\u{202f}q\u{205f}r",
        "\u{2000}a\u{2001}b\u{2002}c\u{2003}d\u{2004}e\u{2005}f\u{2006}g\u{2007}h\u{2008}i\u{2009}j\u{200a}k",
        "\u{a0}\u{a0}lead and trail\u{3000}\u{3000}",
        "caf\u{e9} na\u{ef}ve \u{4e2d}\u{6587}\u{3000}\u{6587}\u{5b57}",
        "not\u{200b}space \u{feff}nor\u{2060}these \u{180e}",
        "\u{c2}\u{e2}\u{80}x",
    ] {
        let spans = split_whitespace(t.as_bytes(), 0, t.len());
        let expected: Vec<String> = t.split_whitespace().map(|w| w.to_string()).collect();
        assert_eq!(pieces(t, &spans), expected, "{:?}", t);
    }
}

#[test]
fn find_space_stops_where_unicode_white_space_begins() {
    let t = "ab\u{2003}cd".as_bytes();
    assert_eq!(find_space(t, 0, t.len()), 2);
    assert_eq!(find_space(t, 5, t.len()), 7);
    assert_eq!(find_space(t, 0, 4), 4);
}

#[test]
fn whitespace_of_one_byte_is_ascii_whitespace() {
    for b in 0u8..=255 {
        let expected = b == b' ' || b == b'\t' || b == b'\n' || b == 11 || b == 12 || b == b'\r';
        assert_eq!(is_whitespace(b), expected, "byte {}", b);
    }
}

#[test]
fn parse_index_reads_plain_numbers() {
    assert_eq!(index("1"), Some(1));
    assert_eq!(index("42"), Some(42));
    assert_eq!(index("007"), Some(7));
    assert_eq!(index("0"), Some(0));
}

#[test]
fn parse_index_reads_signs() {
    assert_eq!(index("-1"), Some(-1));
    assert_eq!(index("+5"), Some(5));
    assert_eq!(index("-0"), Some(0));
}

#[test]
fn parse_index_refuses_what_is_no_number() {
    assert_eq!(index(""), None);
    assert_eq!(index("-"), None);
    assert_eq!(index("+"), None);
    assert_eq!(index("1a"), None);
    assert_eq!(index("a1"), None);
    assert_eq!(index("1.5"), None);
    assert_eq!(index("--1"), None);
    assert_eq!(index(" 1"), None);
    assert_eq!(index("1 "), None);
}

#[test]
fn parse_index_knows_the_ends_of_the_range() {
    assert_eq!(index(&isize::MAX.to_string()), Some(isize::MAX));
    assert_eq!(index(&isize::MIN.to_string()), Some(isize::MIN));
    assert_eq!(index("9223372036854775808"), "9223372036854775808".parse::<isize>().ok());
    assert_eq!(index("-9223372036854775809"), None);
    assert_eq!(index("99999999999999999999999999999999999999999999"), None);
    assert_eq!(index("-99999999999999999999999999999999999999999999"), None);
}

#[test]
fn parse_index_agrees_with_the_standard_reading() {
    for t in ["12", "-12", "+12", "0012", "", "-", "x", "1x", "2147483647", "-2147483648", "1/2"] {
        assert_eq!(index(t), t.parse::<isize>().ok(), "{:?}", t);
    }
}

#[test]
fn parse_index_reads_a_part_of_the_text() {
    let t = b"ab-17cd";
    assert_eq!(parse_index(t, 2, 5), Some(-17));
    assert_eq!(parse_index(t, 3, 5), Some(17));
    assert_eq!(parse_index(t, 3, 3), None);
    assert_eq!(parse_index(t, 1, 5), None);
}

#[test]
fn find_byte_stops_at_the_first() {
    let t = b"ab/cd/e";
    assert_eq!(find_byte(t, b'/', 0, t.len()), 2);
    assert_eq!(find_byte(t, b'/', 3, t.len()), 5);
    assert_eq!(find_byte(t, b'/', 6, t.len()), 7);
    assert_eq!(find_byte(t, b'/', 0, 2), 2);
    assert_eq!(find_byte(t, b'/', 2, 2), 2);
}

#[test]
fn find_space_stops_at_the_first() {
    let t = b"ab cd\te";
    assert_eq!(find_space(t, 0, t.len()), 2);
    assert_eq!(find_space(t, 3, t.len()), 5);
    assert_eq!(find_space(t, 6, t.len()), 7);
}

#[test]
fn split_whitespace_agrees_with_the_standard_splitting() {
    for t in ["", " ", "a", " a", "a ", "v 1.0 2.0 3.0", "  f\t1/2/3   4//5 \r", "a\u{b}b\u{c}c", "one"] {
        let spans = split_whitespace(t.as_bytes(), 0, t.len());
        let expected: Vec<String> = t.split_whitespace().map(|w| w.to_string()).collect();
        assert_eq!(pieces(t, &spans), expected, "{:?}", t);
    }
}

#[test]
fn split_whitespace_gives_places() {
    let t = "  ab  c ";
    let spans = split_whitespace(t.as_bytes(), 0, t.len());
    assert_eq!(spans, vec![Span { start: 2, end: 4 }, Span { start: 6, end: 7 }]);
    let inner = split_whitespace(t.as_bytes(), 3, 6);
    assert_eq!(inner, vec![Span { start: 3, end: 4 }]);
}

#[test]
fn split_lines_agrees_with_the_standard_splitting() {
    for t in ["", "a", "a\n", "a\nb", "a\n\nb", "\n", "\n\n", "a\nb\n", "# c\nv 1 2 3\nf 1 2 3"] {
        let spans = split_lines(t.as_bytes(), 0, t.len());
        let expected: Vec<String> = t.lines().map(|w| w.to_string()).collect();
        assert_eq!(pieces(t, &spans), expected, "{:?}", t);
    }
}

#[test]
fn split_lines_keeps_a_carriage_return() {
    let t = "a\r\nb";
    let spans = split_lines(t.as_bytes(), 0, t.len());
    assert_eq!(spans, vec![Span { start: 0, end: 2 }, Span { start: 3, end: 4 }]);
}
