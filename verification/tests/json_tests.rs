use helixdb_explorer::json::{Json, JsonNumber};

#[test]
fn to_text_writes_compact_json() {
    let v = Json::Object(vec![
        ("b".to_string(), Json::Array(vec![Json::Number(JsonNumber::PosInt(1)), Json::Null])),
        ("a".to_string(), Json::String("x\"y".to_string())),
    ]);
    assert_eq!(v.to_text(), "{\"a\":\"x\\\"y\",\"b\":[1,null]}");
}

#[test]
fn to_text_of_a_float_goes_through_its_text() {
    assert_eq!(Json::Number(JsonNumber::Float("1.50".to_string())).to_text(), "1.5");
    assert_eq!(Json::Number(JsonNumber::NegInt(-7)).to_text(), "-7");
}

#[test]
fn to_text_of_plain_documents() {
    assert_eq!(Json::Null.to_text(), "null");
    assert_eq!(Json::Bool(true).to_text(), "true");
    assert_eq!(Json::Bool(false).to_text(), "false");
    assert_eq!(Json::Number(JsonNumber::PosInt(0)).to_text(), "0");
    assert_eq!(Json::Number(JsonNumber::PosInt(u64::MAX)).to_text(), "18446744073709551615");
    assert_eq!(Json::Number(JsonNumber::NegInt(i64::MIN)).to_text(), "-9223372036854775808");
    assert_eq!(Json::Number(JsonNumber::NegInt(12)).to_text(), "12");
    assert_eq!(Json::String("a\nb".to_string()).to_text(), "\"a\\nb\"");
    assert_eq!(Json::Array(vec![]).to_text(), "[]");
}

#[test]
fn to_text_is_what_parse_reads_back() {
    for text in ["null", "true", "-5", "18446744073709551615", "1.5", "\"x\"", "[1,{\"a\":[]}]"] {
        assert_eq!(Json::parse(text).unwrap().to_text(), text);
    }
}

#[test]
fn parse_reads_every_kind_of_document() {
    let v = Json::parse("{\"id\":\"1\",\"n\":[1,-2,2.5,true,null]}").unwrap();
    assert_eq!(
        v,
        Json::Object(vec![
            ("id".to_string(), Json::String("1".to_string())),
            (
                "n".to_string(),
                Json::Array(vec![
                    Json::Number(JsonNumber::PosInt(1)),
                    Json::Number(JsonNumber::NegInt(-2)),
                    Json::Number(JsonNumber::Float("2.5".to_string())),
                    Json::Bool(true),
                    Json::Null,
                ])
            ),
        ])
    );
}

#[test]
fn parse_refuses_what_is_no_json() {
    assert!(Json::parse("{oops").is_err());
}

#[test]
fn parse_string_reads_a_json_string_only() {
    assert_eq!(Json::parse_string("\"abc-123\""), Ok("abc-123".to_string()));
    assert!(Json::parse_string("42").is_err());
    assert!(Json::parse_string("abc").is_err());
}
