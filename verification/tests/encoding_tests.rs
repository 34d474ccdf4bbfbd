use modio::encoding::{decimal_string, parse_u64};
use modio::filter::ListOptions;

#[test]
fn decimal_of_zero() {
    assert_eq!(decimal_string(0), "0");
}

#[test]
fn decimal_of_numbers() {
    assert_eq!(decimal_string(7), "7");
    assert_eq!(decimal_string(10), "10");
    assert_eq!(decimal_string(1234567890), "1234567890");
    assert_eq!(decimal_string(u64::MAX), "18446744073709551615");
}

#[test]
fn parse_plain_and_signed_numbers() {
    assert_eq!(parse_u64("42"), Some(42));
    assert_eq!(parse_u64("+7"), Some(7));
    assert_eq!(parse_u64("007"), Some(7));
    assert_eq!(parse_u64("0"), Some(0));
    assert_eq!(parse_u64("18446744073709551615"), Some(u64::MAX));
}

#[test]
fn parse_refuses_what_std_refuses() {
    for s in ["", "+", "-1", "1a", " 1", "1 ", "18446744073709551616", "99999999999999999999", "++1"] {
        assert_eq!(parse_u64(s), None, "input {:?}", s);
        assert_eq!(parse_u64(s), s.parse::<u64>().ok(), "input {:?}", s);
    }
}

#[test]
fn parse_agrees_with_std() {
    for s in ["1", "+0", "12345", "0000000000000000000001", "4294967296"] {
        assert_eq!(parse_u64(s), s.parse::<u64>().ok(), "input {:?}", s);
    }
}

#[test]
fn decimal_parses_back() {
    for n in [0u64, 1, 9, 10, 99, 100, 65535, 4294967296, u64::MAX - 1, u64::MAX] {
        assert_eq!(parse_u64(&decimal_string(n)), Some(n));
    }
}

#[test]
fn form_encoding_of_documented_example() {
    let mut opts = ListOptions::new();
    opts.param("foo", "bar & baz");
    opts.param("saison", "Été+hiver");
    assert_eq!(opts.to_query_params(), "foo=bar+%26+baz&saison=%C3%89t%C3%A9%2Bhiver");
}

#[test]
fn form_encoding_keeps_safe_bytes() {
    let mut opts = ListOptions::new();
    opts.param("a-b_c.d*", "AZaz09");
    assert_eq!(opts.to_query_params(), "a-b_c.d*=AZaz09");
}

#[test]
fn form_encoding_escapes_separators() {
    let mut opts = ListOptions::new();
    opts.param("k=&", "v=&?/");
    assert_eq!(opts.to_query_params(), "k%3D%26=v%3D%26%3F%2F");
}

#[test]
fn empty_options_give_empty_query() {
    assert_eq!(ListOptions::new().to_query_params(), "");
}

#[test]
fn empty_name_and_value() {
    let mut opts = ListOptions::new();
    opts.param("", "");
    opts.param("", "");
    assert_eq!(opts.to_query_params(), "=&=");
}
