use grok_code::text::{
    decimal_string, from_chars, is_whitespace, parse_number, split_fields, split_lines,
    split_words, to_chars, trimmed,
};

fn strings(rows: Vec<Vec<char>>) -> Vec<String> {
    rows.iter().map(|r| r.iter().collect()).collect()
}

#[test]
fn characters_round_trip() {
    let text = "héllo 🤔\n";
    assert_eq!(from_chars(&to_chars(text)), text);
    assert_eq!(to_chars("abc"), vec!['a', 'b', 'c']);
    assert_eq!(from_chars(&[]), "");
}

#[test]
fn white_space_is_that_of_the_standard_library() {
    for code in 0..=0x3100u32 {
        if let Some(c) = char::from_u32(code) {
            assert_eq!(is_whitespace(c), c.is_whitespace(), "U+{code:04X}");
        }
    }
}

#[test]
fn trimming_is_that_of_the_standard_library() {
    for text in ["", "   ", " a b ", "\t\nx\u{a0}", "x", "\u{3000}y z\u{2028}", " \0 "] {
        let got: String = trimmed(&to_chars(text)).iter().collect();
        assert_eq!(got, text.trim());
    }
}

#[test]
fn lines_are_those_of_the_standard_library() {
    for text in ["", "\n", "a", "a\n", "a\nb", "a\r\nb\r\n", "a\r", "\r\n\r\n", "a\n\nb\n", "x\ry\n"] {
        let expected: Vec<String> = text.lines().map(|l| l.to_string()).collect();
        assert_eq!(strings(split_lines(&to_chars(text))), expected, "{text:?}");
    }
}

#[test]
fn words_and_fields_are_those_of_the_standard_library() {
    for text in ["", "  ", "a", " a  b\tc\n", "@@ -1,2 +3,4 @@ fn"] {
        let expected: Vec<String> = text.split_whitespace().map(|l| l.to_string()).collect();
        assert_eq!(strings(split_words(&to_chars(text))), expected, "{text:?}");
    }
    for text in ["", ",", "1,2", "1,,2,", "12"] {
        let expected: Vec<String> = text.split(',').map(|l| l.to_string()).collect();
        assert_eq!(strings(split_fields(&to_chars(text), ',')), expected, "{text:?}");
    }
}

#[test]
fn numbers_are_read_as_the_standard_library_reads_them() {
    let max = usize::MAX.to_string();
    let over = format!("{}0", usize::MAX);
    for text in ["0", "7", "+7", "007", "", "+", "-1", "1a", " 1", "++1", "1_000", max.as_str(), over.as_str(), "٣"] {
        assert_eq!(parse_number(&to_chars(text)), text.parse::<usize>().ok(), "{text:?}");
    }
    assert_eq!(parse_number(&to_chars("18446744073709551616")), None);
}

#[test]
fn numerals_are_decimal() {
    assert_eq!(decimal_string(0), "0");
    assert_eq!(decimal_string(7), "7");
    assert_eq!(decimal_string(10), "10");
    assert_eq!(decimal_string(4096), "4096");
    assert_eq!(decimal_string(u64::MAX), "18446744073709551615");
}
