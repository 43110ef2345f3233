use chat_cli::error::ChatError;
use chat_cli::json::{parse_json, push_item, push_member, Json, JsonNumber};
use chat_cli::text::{
    append, chars_of, clone_opt, clone_strings, decimal_text, drop_last_char, join2, join3,
    is_whitespace, join_spaced, repeat, same_text, signed_decimal_text, split_words, string_of,
    text_contains,
};

#[test]
fn numbers_are_written_in_decimal() {
    assert_eq!(decimal_text(0), "0");
    assert_eq!(decimal_text(7), "7");
    assert_eq!(decimal_text(10), "10");
    assert_eq!(decimal_text(1700000000123), "1700000000123");
    assert_eq!(decimal_text(u64::MAX), "18446744073709551615");
    assert_eq!(signed_decimal_text(0), "0");
    assert_eq!(signed_decimal_text(-1), "-1");
    assert_eq!(signed_decimal_text(i64::MAX), "9223372036854775807");
    assert_eq!(signed_decimal_text(i64::MIN), "-9223372036854775808");
}

#[test]
fn texts_are_joined() {
    assert_eq!(join2("ab", "cd"), "abcd");
    assert_eq!(join3("a", "", "ç"), "aç");
    let mut text = "x".to_string();
    append(&mut text, "yz");
    assert_eq!(text, "xyz");
    assert_eq!(repeat("─", 3), "───");
    assert_eq!(repeat("ab", 0), "");
    assert_eq!(chars_of("aß€"), vec!['a', 'ß', '€']);
    assert_eq!(string_of(&vec!['a', 'ß', '€']), "aß€");
    assert_eq!(drop_last_char("aß€"), "aß");
    assert_eq!(drop_last_char(""), "");
    assert!(same_text("a", "a") && !same_text("a", "A"));
    assert_eq!(clone_opt(&Some("a".to_string())), Some("a".to_string()));
    assert_eq!(clone_opt(&None), None);
    assert_eq!(clone_strings(&vec!["a".to_string()]), vec!["a".to_string()]);
}

#[test]
fn text_is_searched() {
    assert!(text_contains("what's the weather like?", "weather"));
    assert!(text_contains("weather", "weather"));
    assert!(text_contains("anything", ""));
    assert!(text_contains("", ""));
    assert!(!text_contains("weathe", "weather"));
    assert!(!text_contains("", "a"));
    assert!(text_contains("aab", "ab"));
    assert!(!text_contains("Weather", "weather"));
}

#[test]
fn words_are_split_at_white_space() {
    assert_eq!(split_words("  one\ttwo\u{a0}three\n"), vec!["one", "two", "three"]);
    assert!(split_words(" \u{2003} ").is_empty());
    assert!(split_words("").is_empty());
    assert_eq!(split_words("one"), vec!["one"]);
    let all = vec!["a".to_string(), "b".to_string(), "c".to_string()];
    assert_eq!(join_spaced(&all, 0, 3), "a b c");
    assert_eq!(join_spaced(&all, 1, 2), "b");
    assert_eq!(join_spaced(&all, 2, 2), "");
}

#[test]
fn errors_are_reported_in_a_sentence() {
    assert_eq!(ChatError::Transport("Stream error: x".to_string()).message(), "Stream error: x");
    assert_eq!(
        ChatError::Protocol { reason: "bad".to_string(), payload: "{".to_string() }.message(),
        "JSON parse error: bad - Data: {"
    );
    assert_eq!(ChatError::ToolResolution("f".to_string()).message(), "Unknown function: f");
    assert_eq!(ChatError::ToolExecution("boom".to_string()).message(), "Tool execution failed: boom");
    assert_eq!(ChatError::ToolLoopExceeded(12).message(), "Tool loop exceeded the limit of 12 iterations");
    let error = ChatError::Protocol { reason: "bad".to_string(), payload: "{".to_string() };
    assert_eq!(error.clone(), error);
}

#[test]
fn json_numbers_keep_their_kind() {
    let parsed = parse_json(b"[0,-3,18446744073709551615,1.5,1e3,-0]").unwrap();
    assert_eq!(
        parsed,
        Json::Array(vec![
            Json::Number(JsonNumber::Int(0)),
            Json::Number(JsonNumber::Int(-3)),
            Json::Number(JsonNumber::UInt(18446744073709551615)),
            Json::Number(JsonNumber::Float("1.5".to_string())),
            Json::Number(JsonNumber::Float("1000.0".to_string())),
            Json::Number(JsonNumber::Float("-0.0".to_string())),
        ])
    );
    assert_eq!(parsed.to_text(), "[0,-3,18446744073709551615,1.5,1000.0,-0.0]");
    assert_eq!(Json::Number(JsonNumber::Float("no number".to_string())).to_text(), "null");
    assert_eq!(Json::Number(JsonNumber::UInt(5)).as_u64(), Some(5));
    assert_eq!(Json::Number(JsonNumber::Int(5)).as_u64(), Some(5));
    assert_eq!(Json::Number(JsonNumber::Int(-5)).as_u64(), None);
    assert_eq!(Json::Number(JsonNumber::Float("5.0".to_string())).as_u64(), None);
    assert_eq!(Json::Null.as_u64(), None);
}

#[test]
fn json_members_are_found_by_key() {
    let object = Json::Object(vec![
        ("a".to_string(), Json::Bool(false)),
        ("b".to_string(), Json::Null),
        ("a".to_string(), Json::Bool(true)),
    ]);
    assert_eq!(object.get("a"), Some(&Json::Bool(true)));
    assert_eq!(object.get("b"), Some(&Json::Null));
    assert_eq!(object.get("c"), None);
    assert_eq!(object.to_text(), "{\"a\":true,\"b\":null}");
    assert_eq!(Json::Array(vec![object.clone()]).get("a"), None);
    assert_eq!(object.clone(), object);
    assert!(object.is_object() && !Json::Null.is_object() && Json::Null.is_null());
    assert_eq!(Json::string("x").as_str(), Some(&"x".to_string()));
    assert_eq!(Json::Null.as_str(), None);
    assert_eq!(Json::array(vec![Json::Null]).as_array(), Some(&vec![Json::Null]));
    assert_eq!(object.as_array(), None);
    assert_eq!(Json::empty_object(), Json::object(Vec::new()));
}

#[test]
fn json_optional_text_is_told_from_a_wrong_type() {
    let object = parse_json(b"{\"a\":\"x\",\"b\":null,\"c\":3}").unwrap();
    assert_eq!(object.optional_text("a"), Some(Some("x".to_string())));
    assert_eq!(object.optional_text("b"), Some(None));
    assert_eq!(object.optional_text("missing"), Some(None));
    assert_eq!(object.optional_text("c"), None);
    let mut members = Vec::new();
    push_member(&mut members, "k", Json::Null);
    assert_eq!(members, vec![("k".to_string(), Json::Null)]);
    let mut items = Vec::new();
    push_item(&mut items, Json::Bool(true));
    assert_eq!(items, vec![Json::Bool(true)]);
}

#[test]
fn json_text_is_escaped_and_deep_values_are_refused() {
    assert_eq!(Json::string("a\"b\n").to_text(), "\"a\\\"b\\n\"");
    assert_eq!(parse_json(b" \"\\u20ac\" ").unwrap(), Json::string("€"));
    let deep = "[".repeat(200);
    assert_eq!(parse_json(deep.as_bytes()), Err("recursion limit exceeded at line 1 column 128".to_string()));
    assert_eq!(parse_json(b""), Err("EOF while parsing a value at line 1 column 0".to_string()));
    assert_eq!(parse_json(b"1 2"), Err("trailing characters at line 1 column 3".to_string()));
}

#[test]
fn white_space_is_what_the_standard_library_takes_for_it() {
    for code in 0..=0x10ffffu32 {
        if let Some(c) = char::from_u32(code) {
            assert_eq!(is_whitespace(c), c.is_whitespace(), "U+{:04X}", code);
        }
    }
    assert!(is_whitespace(' ') && is_whitespace('\t') && is_whitespace('\u{3000}'));
    assert!(!is_whitespace('a') && !is_whitespace('\u{200b}') && !is_whitespace('\u{180e}'));
}
