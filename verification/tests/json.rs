use signal_mcp::json::Json;
use signal_mcp::json_text::{compact_text, from_value, parse_text, readable_text, to_value};

fn sample() -> Json {
    Json::object()
        .with("b", Json::array(vec![Json::unsigned(1), Json::Null]))
        .with("a", Json::text("x\"y"))
}

#[test]
fn compact_text_lists_members_by_key() {
    assert_eq!(compact_text(&sample()), "{\"a\":\"x\\\"y\",\"b\":[1,null]}");
}

#[test]
fn readable_text_is_indented() {
    assert_eq!(
        readable_text(&sample()),
        "{\n  \"a\": \"x\\\"y\",\n  \"b\": [\n    1,\n    null\n  ]\n}"
    );
}

#[test]
fn a_later_member_replaces_an_earlier_one() {
    let twice = sample().with("a", Json::Bool(true));
    assert_eq!(twice.get("a").unwrap().as_bool(), Some(true));
    assert_eq!(compact_text(&twice), "{\"a\":true,\"b\":[1,null]}");
}

#[test]
fn members_are_found_in_objects_only() {
    assert_eq!(sample().get("a").unwrap().as_str(), Some("x\"y"));
    assert!(sample().get("c").is_none());
    assert!(Json::text("a").get("a").is_none());
    assert!(Json::array(vec![Json::Null]).get("0").is_none());
}

#[test]
fn numbers_are_read_as_unsigned_where_they_are() {
    assert_eq!(Json::unsigned(u64::MAX).as_u64(), Some(u64::MAX));
    assert_eq!(Json::signed(5).as_u64(), Some(5));
    assert_eq!(Json::signed(-5).as_u64(), None);
    assert_eq!(Json::text("5").as_u64(), None);
    assert_eq!(Json::Number(serde_json::Number::from_f64(5.0).unwrap()).as_u64(), None);
    assert_eq!(compact_text(&Json::signed(i64::MIN)), "-9223372036854775808");
    assert_eq!(compact_text(&Json::unsigned(u64::MAX)), "18446744073709551615");
}

#[test]
fn values_of_one_kind_are_not_of_another() {
    assert_eq!(Json::Bool(true).as_str(), None);
    assert_eq!(Json::text("true").as_bool(), None);
    assert!(Json::object().as_array().is_none());
    assert_eq!(Json::array(vec![Json::Null, Json::Null]).as_array().unwrap().len(), 2);
    assert_eq!(compact_text(&Json::optional_text(&None)), "null");
    assert_eq!(compact_text(&Json::optional_text(&Some("n".to_string()))), "\"n\"");
}

#[test]
fn a_duplicate_says_the_same() {
    let copy = sample().duplicate();
    assert_eq!(compact_text(&copy), compact_text(&sample()));
    let nested = Json::array(vec![sample(), Json::signed(-1), Json::Bool(false)]);
    assert_eq!(compact_text(&nested.duplicate()), compact_text(&nested));
}

#[test]
fn values_become_serde_values() {
    let value = to_value(&sample());
    assert_eq!(value["a"], serde_json::Value::String("x\"y".to_string()));
    assert_eq!(value["b"][0].as_u64(), Some(1));
    assert!(value["b"][1].is_null());
    assert!(to_value(&Json::Null).is_null());
    assert_eq!(to_value(&Json::Bool(true)).as_bool(), Some(true));
}

#[test]
fn values_come_back() {
    let nested = Json::array(vec![
        sample(),
        Json::signed(i64::MIN),
        Json::unsigned(u64::MAX),
        Json::unsigned(0),
        Json::Bool(false),
        Json::text("\u{0}\n\u{1f600}"),
        Json::array(vec![]),
        Json::object(),
    ]);
    let text = compact_text(&nested);
    assert_eq!(compact_text(&parse_text(&text).unwrap()), text);
    assert_eq!(compact_text(&parse_text(&readable_text(&nested)).unwrap()), text);
    assert_eq!(compact_text(&from_value(to_value(&nested))), text);
}

#[test]
fn texts_that_are_not_json_are_refused() {
    assert_eq!(parse_text("").unwrap_err(), "EOF while parsing a value at line 1 column 0");
    assert!(parse_text("{").is_err());
    assert!(parse_text("1 2").is_err());
    assert_eq!(parse_text(" [1] \n").unwrap().as_array().unwrap().len(), 1);
}

#[test]
fn deep_nesting_is_read_up_to_a_limit() {
    let nested = |depth: usize| {
        let mut json = Json::Null;
        for _ in 0..depth {
            json = Json::array(vec![json]);
        }
        compact_text(&json)
    };
    assert!(parse_text(&nested(127)).is_ok());
    assert!(parse_text(&nested(128)).is_err());
}
