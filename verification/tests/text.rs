use sourcepawn_lsp::text::{decimal_string, parse_u32, prefixed, push_decimal, push_indent, push_newline};

#[test]
fn decimal_strings() {
    assert_eq!(decimal_string(0), "0");
    assert_eq!(decimal_string(7), "7");
    assert_eq!(decimal_string(1234567890), "1234567890");
    assert_eq!(decimal_string(u64::MAX), "18446744073709551615");
    let mut s = "id ".to_string();
    push_decimal(&mut s, 42);
    assert_eq!(s, "id 42");
}

#[test]
fn parse_u32_as_std_does() {
    for text in ["0", "12", "+7", "007", "4294967295", "4294967296", "", "+", "-1", "1a", " 1", "99999999999"] {
        assert_eq!(parse_u32(text), text.parse::<u32>().ok(), "{}", text);
    }
}

#[test]
fn parse_then_print_round_trips() {
    for n in [0u32, 1, 9, 10, 65535, u32::MAX] {
        assert_eq!(parse_u32(&decimal_string(n as u64)), Some(n));
    }
}

#[test]
fn indentation_and_prefixes() {
    let mut s = String::new();
    push_indent(&mut s, 3);
    assert_eq!(s, "      ");
    push_newline(&mut s, 1);
    assert_eq!(s, "      \n  ");
    assert_eq!(prefixed("-i", "/inc"), "-i/inc");
    assert_eq!(prefixed("", ""), "");
}
