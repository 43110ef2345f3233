use chat_cli::json::{parse_json, Json, JsonNumber};

#[test]
fn parse_reads_an_object() {
    let parsed = parse_json(b"{\"name\":\"get_weather\",\"n\":3}").unwrap();
    assert_eq!(parsed.get("name"), Some(&Json::Str("get_weather".to_string())));
    assert_eq!(parsed.get("n"), Some(&Json::Number(JsonNumber::Int(3))));
    assert_eq!(parsed.get("missing"), None);
}

#[test]
fn text_round_trips() {
    let parsed = parse_json(b"{\"b\":[1,2.5,null,true],\"a\":\"x\"}").unwrap();
    assert_eq!(parsed.to_text(), "{\"a\":\"x\",\"b\":[1,2.5,null,true]}");
}

#[test]
fn parse_reports_an_error() {
    assert!(parse_json(b"{oops").is_err());
}
