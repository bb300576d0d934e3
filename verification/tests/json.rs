use condo::json::{Json, JsonNumber, StreamItem};
use condo::utils::{decimal, error_details, iter_to_stream, JSONStream, Reply};

#[test]
fn documents_are_read() {
    assert_eq!(Json::parse("null").unwrap(), Json::Null);
    assert_eq!(Json::parse(" true ").unwrap(), Json::Bool(true));
    assert_eq!(Json::parse("\"a\\nb\"").unwrap(), Json::String("a\nb".to_string()));
    assert_eq!(Json::parse("17").unwrap(), Json::Number(JsonNumber::Unsigned(17)));
    assert_eq!(Json::parse("-17").unwrap(), Json::Number(JsonNumber::Negative(-17)));
    assert_eq!(Json::parse("1.5").unwrap(), Json::Number(JsonNumber::Real("1.5".to_string())));
    assert_eq!(
        Json::parse("[1, [2], {}]").unwrap(),
        Json::Array(vec![
            Json::Number(JsonNumber::Unsigned(1)),
            Json::Array(vec![Json::Number(JsonNumber::Unsigned(2))]),
            Json::Object(vec![]),
        ])
    );
    assert_eq!(
        Json::parse(r#"{"b": 1, "a": {"c": null}}"#).unwrap(),
        Json::Object(vec![
            ("a".to_string(), Json::Object(vec![("c".to_string(), Json::Null)])),
            ("b".to_string(), Json::Number(JsonNumber::Unsigned(1))),
        ])
    );
}

#[test]
fn text_that_is_no_document_is_refused_with_a_message() {
    assert!(Json::parse("nulx").unwrap_err().contains("expected ident"));
    assert!(Json::parse("nul").unwrap_err().contains("EOF"));
    assert!(!Json::parse("").unwrap_err().is_empty());
    assert!(Json::parse("1 2").unwrap_err().contains("trailing characters"));
}

#[test]
fn last_of_two_equal_names_counts_in_a_text() {
    let json = Json::parse(r#"{"a": 1, "a": 2}"#).unwrap();
    assert_eq!(json.get("a"), Some(&Json::Number(JsonNumber::Unsigned(2))));
}

#[test]
fn members_are_found_from_the_front() {
    let json = Json::Object(vec![
        ("a".to_string(), Json::Bool(true)),
        ("b".to_string(), Json::Null),
        ("a".to_string(), Json::Bool(false)),
    ]);
    assert_eq!(json.get("a"), Some(&Json::Bool(true)));
    assert_eq!(json.get("b"), Some(&Json::Null));
    assert_eq!(json.get("c"), None);
    assert_eq!(Json::Array(vec![]).get("a"), None);
}

#[test]
fn values_are_told_apart() {
    assert_eq!(Json::String("x".to_string()).as_str(), Some(&"x".to_string()));
    assert_eq!(Json::Null.as_str(), None);
    assert_eq!(Json::Bool(true).as_bool(), Some(true));
    assert_eq!(Json::Null.as_bool(), None);
    assert_eq!(Json::Number(JsonNumber::Unsigned(65535)).as_u16(), Some(65535));
    assert_eq!(Json::Number(JsonNumber::Unsigned(65536)).as_u16(), None);
    assert_eq!(Json::Number(JsonNumber::Negative(-1)).as_u16(), None);
    assert_eq!(Json::Number(JsonNumber::Real("1.0".to_string())).as_u16(), None);
    assert_eq!(Json::Array(vec![Json::Null]).as_array(), Some(&vec![Json::Null]));
    assert_eq!(Json::Null.as_array(), None);
    assert!(Json::Null.is_null() && !Json::Bool(false).is_null());
    assert!(Json::Object(vec![]).is_object() && !Json::Array(vec![]).is_object());
}

#[test]
fn clone_is_equal() {
    let json = Json::parse(r#"{"a": [1, -2, 3.5, "x", null, true, {"b": []}]}"#).unwrap();
    assert_eq!(json.clone(), json);
}

#[test]
fn next_document_is_read_at_an_offset() {
    let input = b"{\"k\": 3} 17 [";
    assert_eq!(
        Json::parse_at(input, 0),
        StreamItem::Document(Json::Object(vec![("k".to_string(), Json::Number(JsonNumber::Unsigned(3)))]), 8)
    );
    assert_eq!(Json::parse_at(input, 8), StreamItem::Document(Json::Number(JsonNumber::Unsigned(17)), 3));
    assert!(matches!(Json::parse_at(input, 11), StreamItem::Invalid(message) if !message.is_empty()));
    assert_eq!(Json::parse_at(b"  \n ", 1), StreamItem::End);
    assert_eq!(Json::parse_at(b"", 0), StreamItem::End);
}

#[test]
fn stream_yields_documents_until_the_end() {
    let mut stream = iter_to_stream(b"{\"status\": \"a\"}\n{\"status\": \"b\"} \"c\"\n".to_vec());
    assert_eq!(
        stream.next(),
        Some(Ok(Json::Object(vec![("status".to_string(), Json::String("a".to_string()))])))
    );
    assert_eq!(
        stream.next(),
        Some(Ok(Json::Object(vec![("status".to_string(), Json::String("b".to_string()))])))
    );
    assert_eq!(stream.next(), Some(Ok(Json::String("c".to_string()))));
    assert_eq!(stream.next(), None);
    assert_eq!(stream.next(), None);
}

#[test]
fn stream_stops_after_a_failure() {
    let mut stream = JSONStream::new(b"1 {\"a\": } 2".to_vec());
    assert_eq!(stream.next(), Some(Ok(Json::Number(JsonNumber::Unsigned(1)))));
    assert!(matches!(stream.next(), Some(Err(message)) if !message.is_empty()));
    assert_eq!(stream.next(), None);
}

#[test]
fn error_details_prefer_the_cause() {
    assert_eq!(error_details("outer", Some("inner")), "inner");
    assert_eq!(error_details("outer", None), "outer");
}

#[test]
fn reply_knows_whether_it_is_ok() {
    let reply = |status| Reply { status, status_text: String::new(), body: String::new() };
    assert!(reply(200).ok());
    assert!(!reply(201).ok());
    assert!(!reply(404).ok());
}

#[test]
fn numbers_are_written_in_decimal() {
    assert_eq!(decimal(0), "0");
    assert_eq!(decimal(7), "7");
    assert_eq!(decimal(10), "10");
    assert_eq!(decimal(1905), "1905");
    assert_eq!(decimal(-1), "-1");
    assert_eq!(decimal(-120), "-120");
    assert_eq!(decimal(i64::MAX), "9223372036854775807");
    assert_eq!(decimal(i64::MIN), "-9223372036854775808");
}
