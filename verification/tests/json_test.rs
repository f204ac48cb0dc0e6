//! The JSON layer: parsing, field readers, and string escaping.

use gh::json::{escape_json_string, get_field, parse_json, Json};

fn parse(s: &str) -> Json {
    parse_json(s).expect("document should parse")
}

#[test]
fn test_parse_scalars() {
    assert!(matches!(parse("null"), Json::Null));
    assert!(matches!(parse("true"), Json::Bool(true)));
    assert!(matches!(parse("false"), Json::Bool(false)));
    assert!(matches!(parse("0"), Json::UInt(0)));
    assert!(matches!(parse("123"), Json::UInt(123)));
    assert!(matches!(parse("18446744073709551615"), Json::UInt(u64::MAX)));
    // Numbers the client never reads are still accepted on the wire.
    assert!(matches!(parse("-5"), Json::NumOther));
    assert!(matches!(parse("1.5"), Json::NumOther));
    assert!(matches!(parse("1e3"), Json::NumOther));
    assert!(matches!(parse("18446744073709551616"), Json::NumOther));
}

#[test]
fn test_parse_strings() {
    match parse("\"hello\"") {
        Json::Str(s) => assert_eq!(s, "hello"),
        _ => panic!("expected a string"),
    }
    match parse("\"a\\\"b\\\\c\\/d\\n\\t\\u0041\"") {
        Json::Str(s) => assert_eq!(s, "a\"b\\c/d\n\tA"),
        _ => panic!("expected a string"),
    }
    // A surrogate pair decodes to one character outside the basic plane.
    match parse("\"\\uD83D\\uDE00\"") {
        Json::Str(s) => assert_eq!(s, "\u{1F600}"),
        _ => panic!("expected a string"),
    }
}

#[test]
fn test_parse_structures() {
    match parse(" { \"a\" : [ 1 , 2 ] , \"b\" : { } } ") {
        Json::Obj(fields) => {
            assert_eq!(fields.len(), 2);
            assert_eq!(fields[0].0, "a");
            match &fields[0].1 {
                Json::Arr(items) => assert_eq!(items.len(), 2),
                _ => panic!("expected an array"),
            }
        }
        _ => panic!("expected an object"),
    }
    assert!(matches!(parse("[]"), Json::Arr(v) if v.is_empty()));
}

#[test]
fn test_parse_rejects() {
    assert!(parse_json("").is_none());
    assert!(parse_json("nul").is_none());
    assert!(parse_json("{").is_none());
    assert!(parse_json("[1,]").is_none());
    assert!(parse_json("{\"a\":}").is_none());
    assert!(parse_json("{\"a\" 1}").is_none());
    assert!(parse_json("\"unterminated").is_none());
    assert!(parse_json("\"\\x\"").is_none());
    // a lone surrogate is not a scalar value
    assert!(parse_json("\"\\uD83D\"").is_none());
    // a raw control character must be escaped
    assert!(parse_json("\"a\nb\"").is_none());
    // leading zeros and trailing content are refused
    assert!(parse_json("01").is_none());
    assert!(parse_json("1 2").is_none());
}

#[test]
fn test_parse_agrees_with_reference_parser() {
    let docs = [
        "null",
        "true",
        "[1, 2, 3]",
        "{\"id\": 7, \"title\": \"T\\u00e9st\", \"closed_at\": null}",
        "{\"nested\": {\"deep\": [{\"a\": \"b\"}]}}",
        "\"\\uD83D\\uDE00\"",
        "{",
        "[1,]",
        "tru",
        "1 2",
        "\"\\uD800\"",
    ];
    for doc in docs {
        let reference = serde_json::from_str::<serde_json::Value>(doc);
        assert_eq!(
            parse_json(doc).is_some(),
            reference.is_ok(),
            "disagreement on {doc:?}"
        );
    }
    // and the values read off a document agree
    let doc = "{\"id\": 42, \"login\": \"octo\\\"cat\"}";
    let v: serde_json::Value = serde_json::from_str(doc).unwrap();
    let j = parse(doc);
    match get_field(&j, "id") {
        Some(Json::UInt(u)) => assert_eq!(Some(*u), v["id"].as_u64()),
        _ => panic!("expected a number"),
    }
    match get_field(&j, "login") {
        Some(Json::Str(s)) => assert_eq!(Some(s.as_str()), v["login"].as_str()),
        _ => panic!("expected a string"),
    }
}

#[test]
fn test_get_field_first_occurrence_wins() {
    let j = parse("{\"a\": 1, \"a\": 2}");
    assert!(matches!(get_field(&j, "a"), Some(Json::UInt(1))));
    assert!(get_field(&j, "b").is_none());
    assert!(get_field(&parse("[1]"), "a").is_none());
}

#[test]
fn test_escape_json_string() {
    assert_eq!(escape_json_string("plain"), "plain");
    assert_eq!(escape_json_string("a\"b\\c"), "a\\\"b\\\\c");
    assert_eq!(escape_json_string("line\nfeed\u{1}"), "line\\u000afeed\\u0001");
    // what the encoder writes, the parser reads back
    let original = "ti\"tle\\ with \n control";
    let mut doc = String::from("\"");
    doc.push_str(&escape_json_string(original));
    doc.push('"');
    match parse(&doc) {
        Json::Str(s) => assert_eq!(s, original),
        _ => panic!("expected a string"),
    }
}
