use ryu_research::json::Json;
use ryu_research::reply::{body_or_empty, body_value, is_success, status_text};
use ryu_research::text::{
    chars_of, decimal_text, is_blank, is_white_space, nonempty, parse_port, same_text, starts_with,
    strip_prefix, trim, trim_end_char,
};

fn json(text: &str) -> Json {
    Json::from_bytes(text.as_bytes()).unwrap()
}

#[test]
fn white_space_is_that_of_the_standard_library() {
    for code in 0..=0x10ffff_u32 {
        if let Some(c) = char::from_u32(code) {
            assert_eq!(is_white_space(c), c.is_whitespace(), "{code:x}");
        }
    }
}

#[test]
fn trimming_agrees_with_the_standard_library() {
    for s in [
        "", " ", "a", " a", "a ", "\u{2003}a b\n", "\t\u{85}", "é ", "a\u{200b}",
    ] {
        assert_eq!(trim(s), s.trim());
        assert_eq!(trim(trim(s)), trim(s));
        assert_eq!(is_blank(s), s.trim().is_empty());
        assert_eq!(
            nonempty(Some(s)),
            Some(s.trim().to_owned()).filter(|t| !t.is_empty())
        );
    }
    assert_eq!(nonempty(None), None);
}

#[test]
fn prefixes_and_suffixes() {
    assert!(starts_with("http://x", "http://"));
    assert!(!starts_with("http:", "http://"));
    assert_eq!(strip_prefix("Bearer é", "Bearer "), Some("é"));
    assert_eq!(strip_prefix("bearer x", "Bearer "), None);
    assert_eq!(trim_end_char("a//", '/'), "a");
    assert_eq!(trim_end_char("///", '/'), "");
    assert!(same_text("é", "é") && !same_text("e", "é"));
    assert_eq!(chars_of("aé"), ['a', 'é']);
}

#[test]
fn ports_read_as_the_standard_library_reads_them() {
    for s in [
        "", "+", "-1", "0", "+80", "080", "65535", "65536", "99999999999", "8 0", "８", "1e3",
    ] {
        assert_eq!(parse_port(s), s.parse::<u16>().ok(), "{s}");
    }
    for p in [0_u16, 9, 10, 8087, 65535] {
        assert_eq!(parse_port(&decimal_text(p as u64)), Some(p));
    }
    assert_eq!(decimal_text(u64::MAX), u64::MAX.to_string());
}

#[test]
fn json_goes_there_and_back() {
    let text = "{\"a\":[1,-2,0.5,\"x\\n\"],\"b\":{\"c\":null,\"d\":true},\"e\":18446744073709551615}";
    let value = json(text);
    let expected: serde_json::Value = serde_json::from_str(text).unwrap();
    assert_eq!(value.to_value(), expected);
    assert_eq!(value.to_text().unwrap(), text);
    assert_eq!(value.printed(), expected.to_string());
    assert_eq!(Json::from_value(expected.clone()).to_value(), expected);
    assert_eq!(value.clone().to_value(), expected);
}

#[test]
fn json_members_and_items_are_read() {
    let value = json("{\"s\":\"t\",\"b\":false,\"n\":7,\"f\":7.0,\"m\":-7,\"l\":[1,2],\"z\":null}");
    assert_eq!(value.get_str("s"), Some("t"));
    assert_eq!(value.get_str("n"), None);
    assert_eq!(value.get_bool("b"), Some(false));
    assert_eq!(value.get_u64("n"), Some(7));
    assert_eq!(value.get_u64("f"), None);
    assert_eq!(value.get_u64("m"), None);
    assert_eq!(value.get("l").unwrap().as_list().unwrap().len(), 2);
    assert!(value.get("z").unwrap().is_null());
    assert!(value.get("missing").is_none());
    assert!(value.is_object());
    assert!(json("[]").get("x").is_none());
}

#[test]
fn the_last_value_of_a_name_counts() {
    let value = Json::object()
        .with("a", Json::integer(-1))
        .with("b", Json::unsigned(2))
        .with("a", Json::text("x"));
    assert_eq!(value.get_str("a"), Some("x"));
    assert_eq!(value.to_text().unwrap(), "{\"a\":\"x\",\"b\":2}");
    assert_eq!(
        Json::list().and(Json::Null).and(Json::Bool(true)).printed(),
        "[null,true]"
    );
    assert_eq!(Json::text("x").with("a", Json::Null).printed(), "\"x\"");
    assert_eq!(Json::integer(i64::MIN).printed(), i64::MIN.to_string());
}

#[test]
fn json_errors_carry_the_text_of_the_reader() {
    let error = Json::from_bytes(b"{").unwrap_err();
    let expected = serde_json::from_slice::<serde_json::Value>(b"{").unwrap_err();
    assert_eq!(error, expected.to_string());
}

#[test]
fn bodies_are_json_or_raw_text() {
    assert_eq!(body_value(b"{\"a\":1}").printed(), "{\"a\":1}");
    assert_eq!(body_value(b"plain text").printed(), "{\"raw\":\"plain text\"}");
    assert_eq!(
        body_value(b"a\xff").get_str("raw"),
        Some("a\u{fffd}")
    );
    assert_eq!(body_or_empty(&None).printed(), "{\"raw\":\"\"}");
    assert_eq!(body_or_empty(&Some(b"[]".to_vec())).printed(), "[]");
}

#[test]
fn statuses_are_written_with_their_reason() {
    assert_eq!(status_text(500), "500 Internal Server Error");
    assert_eq!(status_text(599), "599 <unknown status code>");
    assert_eq!(status_text(7), "7");
    assert!(is_success(200) && is_success(299));
    assert!(!is_success(199) && !is_success(300));
}
