//! Doubles, percent encoding, texts and JSON.
use stremio_presence::double::Double;
use stremio_presence::json::Json;
use stremio_presence::percent::{percent_decode, percent_encode};
use stremio_presence::text;

fn double(value: f64) -> Double {
    Double { bits: value.to_bits() }
}

fn samples() -> Vec<f64> {
    let mut values = vec![
        0.0,
        -0.0,
        0.5,
        -0.5,
        0.999999,
        1.0,
        -1.0,
        1.5,
        199.99999,
        200.0,
        200.00000000000003,
        -200.0,
        4503599627370495.5,
        9007199254740993.0,
        9223372036854775807.0,
        9223372036854774784.0,
        -9223372036854775808.0,
        -9223372036854777856.0,
        1e300,
        -1e300,
        f64::MIN_POSITIVE,
        5e-324,
        -5e-324,
        f64::MAX,
        f64::MIN,
        f64::INFINITY,
        f64::NEG_INFINITY,
        f64::NAN,
        -f64::NAN,
    ];
    let mut bits: u64 = 0x9E37_79B9_7F4A_7C15;
    for _ in 0..2000 {
        bits = bits.wrapping_mul(6364136223846793005).wrapping_add(1442695040888963407);
        values.push(f64::from_bits(bits));
        values.push((bits as i64 as f64) / 1024.0);
        values.push((bits % 400) as f64 + 0.25);
    }
    values
}

#[test]
fn whole_numbers_are_those_of_the_cast() {
    for value in samples() {
        assert_eq!(double(value).to_whole(), value as i64, "{value}");
    }
}

#[test]
fn signs_are_those_of_the_comparison() {
    assert_eq!(Double::zero().bits, 0.0f64.to_bits());
    for value in samples() {
        assert_eq!(double(value).is_above_zero(), value > 0.0, "{value}");
        assert_eq!(double(value).is_at_most_zero(), value <= 0.0, "{value}");
    }
}

#[test]
fn clamping_is_that_of_the_standard_library() {
    for value in samples() {
        let clamped = value.clamp(0.0, 200.0);
        assert_eq!(double(value).clamp_to_200().bits, clamped.to_bits(), "{value}");
    }
}

#[test]
fn encoding_keeps_only_unreserved_characters() {
    assert_eq!(percent_encode("AZaz09-._~"), "AZaz09-._~");
    assert_eq!(percent_encode("a b/c?d&e=é%"), "a%20b%2Fc%3Fd%26e%3D%C3%A9%25");
    assert_eq!(percent_encode("€😀"), "%E2%82%AC%F0%9F%98%80");
    assert_eq!(percent_encode(""), "");
}

#[test]
fn decoding_reads_back_and_leaves_what_is_no_escape() {
    for s in ["", "a b/c?d&e=é%", "€😀", "tt0903747:1:3", "%41"] {
        assert_eq!(percent_decode(&percent_encode(s)), s);
    }
    assert_eq!(percent_decode("tt0903747%3A1%3a3"), "tt0903747:1:3");
    assert_eq!(percent_decode("%"), "%");
    assert_eq!(percent_decode("%4"), "%4");
    assert_eq!(percent_decode("%zz%41"), "%zzA");
    assert_eq!(percent_decode("a+b"), "a+b");
}

#[test]
fn what_is_no_text_stays_encoded() {
    assert_eq!(percent_decode("%FF"), "%FF");
    assert_eq!(percent_decode("%41%C3"), "%41%C3");
}

#[test]
fn numbers_are_parsed_as_by_the_standard_library() {
    for s in [
        "", "+", "-", "0", "+5", "-5", "007", "60", " 5", "5 ", "5.0", "1e3", "18446744073709551615",
        "18446744073709551616", "2147483647", "2147483648", "-2147483648", "-2147483649", "+-1",
        "٣", "99999999999999999999999999",
    ] {
        assert_eq!(text::parse_u64(s), s.parse::<u64>().ok(), "{s}");
        assert_eq!(text::parse_i32(s), s.parse::<i32>().ok(), "{s}");
    }
    for n in [0, 7, 10, 99, 100, u64::MAX] {
        assert_eq!(text::decimal_text(n), n.to_string());
    }
}

#[test]
fn texts_are_handled_as_by_the_standard_library() {
    for s in ["", " a ", "\u{3000}x\u{a0}", "\t\n", "ÀÉ", "WEB", "ΑΣ", "a\u{200b}"] {
        assert_eq!(text::trim(s), s.trim());
        assert_eq!(text::to_lowercase(s), s.to_lowercase());
    }
    assert!(text::eq_ignore_ascii_case("tRuE", "true"));
    assert!(!text::eq_ignore_ascii_case("true ", "true"));
    assert!(!text::eq_ignore_ascii_case("É", "é"));
    for s in ["", "a", "a:b", ":", "::", "a:b:c"] {
        assert_eq!(text::split(s, ":"), s.split(':').collect::<Vec<_>>());
        assert_eq!(text::find(s, ":"), s.find(':'));
    }
    assert_eq!(text::find("äöx", "x"), Some(2));
    assert_eq!(text::trim_start_matches("xxay", "x"), "ay");
    assert_eq!(text::trim_end_matches("a//", "/"), "a");
    assert_eq!(text::after_prefix("kitsu:1", "kitsu:"), Some("1"));
    assert_eq!(text::after_prefix("kits", "kitsu:"), None);
}

#[test]
fn json_is_taken_apart() {
    let json = Json::parse(
        r#"{"a":"x","b":true,"n":1.5,"i":-3,"z":null,"l":[1,"y"],"a":"later","o":{"k":2}}"#,
    )
    .unwrap();
    assert!(json.is_object());
    assert_eq!(json.str_at("a"), Some("later"));
    assert_eq!(json.bool_at("b"), Some(true));
    assert_eq!(json.double_at("n"), Some(double(1.5)));
    assert_eq!(json.double_at("i"), Some(double(-3.0)));
    assert!(matches!(json.get("z"), Some(Json::Null)));
    let list = json.get("l").unwrap().as_array().unwrap();
    assert_eq!(list.len(), 2);
    assert_eq!(list[1].as_str(), Some("y"));
    assert_eq!(json.get("o").unwrap().double_at("k"), Some(double(2.0)));
    assert_eq!(json.str_at("b"), None);
    assert_eq!(json.bool_at("a"), None);
    assert!(json.get("missing").is_none());
    assert!(list[0].get("a").is_none());
}

#[test]
fn json_that_is_none_is_refused() {
    assert!(Json::parse("").is_none());
    assert!(Json::parse("{").is_none());
    assert!(Json::parse("<html>").is_none());
    assert!(matches!(Json::parse("null"), Some(Json::Null)));
    let value = serde_json::Value::String("s".to_string());
    assert_eq!(Json::from_value(value).as_str(), Some("s"));
}
