use editorsql::text::{
    contains_chars, format_i32, format_u64, is_blank, is_whitespace, lower_chars, parse_port, trim,
};

const SAMPLES: &[&str] = &[
    "",
    " ",
    "abc",
    "  abc  ",
    "\t\n hola mundo \r\n",
    "\u{3000}全角\u{3000}",
    "\u{00A0}x\u{2007}",
    "\u{0085}a b\u{205F}",
    "\u{200B}zero width\u{200B}",
    "  a  b  ",
    "\u{1680}\u{2028}\u{2029}\u{202F}",
    "SELECT 1;\n",
];

#[test]
fn trim_agrees_with_std_trim() {
    for s in SAMPLES {
        assert_eq!(trim(s), s.trim().to_string(), "input {:?}", s);
    }
}

#[test]
fn is_blank_agrees_with_std() {
    for s in SAMPLES {
        assert_eq!(is_blank(s), s.trim().is_empty(), "input {:?}", s);
    }
}

#[test]
fn is_whitespace_agrees_with_std_on_first_code_points() {
    for u in 0u32..0x3100 {
        if let Some(c) = char::from_u32(u) {
            assert_eq!(is_whitespace(c), c.is_whitespace(), "code point {:x}", u);
        }
    }
}

#[test]
fn trim_is_idempotent_on_samples() {
    for s in SAMPLES {
        let once = trim(s);
        assert_eq!(trim(&once), once);
    }
}

#[test]
fn parse_port_agrees_with_std_parse() {
    let inputs = [
        "", "+", "-", "0", "1433", "+1433", "-1433", "65535", "65536", "99999", "0001433", " 1433",
        "1433 ", "14a3", "١٤٣٣", "++1", "+-1", "4294967297", "000000000000000065535",
    ];
    for s in inputs {
        assert_eq!(parse_port(s), s.parse::<u16>().ok(), "input {:?}", s);
    }
}

#[test]
fn parse_port_default_port() {
    assert_eq!(parse_port("1433"), Some(1433));
    assert_eq!(parse_port("abc"), None);
}

#[test]
fn format_u64_agrees_with_to_string() {
    for n in [0u64, 1, 9, 10, 11, 99, 100, 1433, 65535, 1_000_000, u64::MAX] {
        assert_eq!(format_u64(n), n.to_string());
    }
}

#[test]
fn format_i32_agrees_with_to_string() {
    for n in [0i32, 1, -1, 42, -42, 1433, i32::MAX, i32::MIN, -10, 10] {
        assert_eq!(format_i32(n), n.to_string());
    }
}

#[test]
fn port_round_trip_through_decimal() {
    for n in [0u16, 7, 10, 1433, 8080, 65535] {
        assert_eq!(parse_port(&format_u64(n as u64)), Some(n));
    }
}

#[test]
fn lowering_and_searching_chars() {
    let hay: Vec<char> = lower_chars(&"¿Qué TABLAS Hay?".chars().collect());
    assert_eq!(hay.iter().collect::<String>(), "¿qué tablas hay?");
    assert!(contains_chars(&hay, &"tabla".chars().collect()));
    assert!(!contains_chars(&hay, &"TABLA".chars().collect()));
    assert!(contains_chars(&hay, &Vec::new()));
    assert!(!contains_chars(&"ab".chars().collect(), &"abc".chars().collect()));
}
