use iidm::json::{overlay_members, parse_json, put_member};
use iidm::{Json, JsonNumber};

#[test]
fn text_that_is_no_json_does_not_parse() {
    assert!(parse_json("invalid json").is_err());
    assert!(parse_json("{\"a\": 1,}").is_err());
    assert!(parse_json("").is_err());
}

#[test]
fn every_kind_of_value_parses_to_its_variant() {
    assert!(matches!(parse_json("null").unwrap(), Json::Null));
    assert!(matches!(parse_json("true").unwrap(), Json::Bool(true)));
    assert!(matches!(parse_json("\"text\"").unwrap(), Json::String(text) if text == "text"));
    match parse_json("[1, [2], {}]").unwrap() {
        Json::Array(items) => {
            assert_eq!(items.len(), 3);
            assert!(matches!(&items[1], Json::Array(inner) if inner.len() == 1));
            assert!(matches!(&items[2], Json::Object(members) if members.is_empty()));
        }
        other => panic!("unexpected value: {:?}", other),
    }
}

#[test]
fn a_number_offers_its_three_readings() {
    assert!(matches!(
        parse_json("3").unwrap(),
        Json::Number(JsonNumber { signed: Some(3), unsigned: Some(3), bits: Some(bits) })
            if f64::from_bits(bits) == 3.0
    ));
    assert!(matches!(
        parse_json("-3").unwrap(),
        Json::Number(JsonNumber { signed: Some(-3), unsigned: None, bits: Some(bits) })
            if f64::from_bits(bits) == -3.0
    ));
    assert!(matches!(
        parse_json("1.5").unwrap(),
        Json::Number(JsonNumber { signed: None, unsigned: None, bits: Some(bits) })
            if f64::from_bits(bits) == 1.5
    ));
    assert!(matches!(
        parse_json("18446744073709551615").unwrap(),
        Json::Number(JsonNumber { signed: None, unsigned: Some(u64::MAX), bits: Some(_) })
    ));
}

#[test]
fn get_finds_a_member_by_its_exact_key() {
    let object = parse_json(r#"{"b": 2, "a": {"c": null}}"#).unwrap();
    assert!(object.is_object());
    assert!(matches!(object.get("b"), Some(Json::Number(_))));
    assert!(object.get("a").unwrap().get("c").unwrap().is_null());
    assert!(object.get("B").is_none());
    assert!(object.get("c").is_none());
    assert!(parse_json("[1]").unwrap().get("a").is_none());
}

#[test]
fn put_replaces_in_place_or_adds_at_the_end() {
    let mut members = vec![
        ("a".to_string(), Json::Bool(true)),
        ("b".to_string(), Json::Null),
    ];
    put_member(&mut members, "a".to_string(), Json::Bool(false));
    put_member(&mut members, "c".to_string(), Json::Bool(true));
    assert_eq!(members.len(), 3);
    assert_eq!(members[0].0, "a");
    assert!(matches!(members[0].1, Json::Bool(false)));
    assert_eq!(members[2].0, "c");
}

#[test]
fn an_overlay_puts_each_update_in_order() {
    let mut members = vec![("a".to_string(), Json::Bool(true))];
    overlay_members(
        &mut members,
        vec![
            ("b".to_string(), Json::Null),
            ("a".to_string(), Json::Null),
            ("b".to_string(), Json::Bool(true)),
        ],
    );
    assert_eq!(members.len(), 2);
    assert!(matches!(members[0], (ref key, Json::Null) if key == "a"));
    assert!(matches!(members[1], (ref key, Json::Bool(true)) if key == "b"));
}
