use hacksor::text::{char_is_whitespace, str_lines, str_replace, str_trim, str_words};

#[test]
fn whitespace_agrees_with_std_on_every_char() {
    let mut code: u32 = 0;
    while code <= 0x10FFFF {
        if let Some(c) = char::from_u32(code) {
            assert_eq!(char_is_whitespace(c), c.is_whitespace());
        }
        code += 1;
    }
}

#[test]
fn trim_agrees_with_std() {
    for s in ["", "  a b \n", "\t\u{3000}x", "x", "   "] {
        assert_eq!(str_trim(s), s.trim());
    }
}

#[test]
fn lines_agree_with_std() {
    for s in ["", "a", "a\n", "a\r\nb", "foo\nbar\n\r\nbaz\r", "\n\n", "\r", "x\r\r\ny"] {
        let expected: Vec<String> = s.lines().map(String::from).collect();
        assert_eq!(str_lines(s), expected);
    }
}

#[test]
fn words_agree_with_std() {
    for s in ["", " a  b\tc ", "one", "  ", "a\u{a0}b"] {
        let expected: Vec<String> = s.split_whitespace().map(String::from).collect();
        assert_eq!(str_words(s), expected);
    }
}

#[test]
fn replace_agrees_with_std() {
    for (s, from, to) in [("nmap -sS -sS x", " -sS", " -sT"), ("aaa", "aa", "b"), ("abc", "d", "e"), ("", "a", "b")] {
        assert_eq!(str_replace(s, from, to), s.replace(from, to));
    }
}

#[test]
fn file_name_characters_agree_with_std_on_ascii() {
    for code in 0u8..128 {
        let c = code as char;
        let kept = c.is_ascii_alphanumeric() || c == '-' || c == '_' || c == '.';
        let expected = if kept { c.to_string() } else { String::from("_") };
        assert_eq!(hacksor::util::sanitize_filename(&c.to_string()), expected);
    }
}

#[test]
fn lower_case_agrees_with_std_on_ascii() {
    for code in 0u8..128 {
        let c = code as char;
        let text = format!("{}map example.com", c);
        let expected = text.to_ascii_lowercase().contains("nmap");
        assert_eq!(
            hacksor::response::determine_command_type(&text) == hacksor::monitor::model::CommandType::Reconnaissance,
            expected
        );
    }
}
