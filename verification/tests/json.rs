use gws_executa::json::{
    json_from_value, json_integer, json_names, json_text, json_texts, parse_json, Json, JsonObject,
};

#[test]
fn a_text_is_read_as_a_tree() {
    let json = parse_json("{\"a\": [null, true, 7, \"x\", {\"b\": -1}], \"c\": {}}").unwrap();

    let items = json.get("a").unwrap().as_list().unwrap();
    assert_eq!(items.len(), 5);
    assert_eq!(items[0], Json::Null);
    assert_eq!(items[1], Json::Bool(true));
    assert_eq!(items[2], json_integer(7));
    assert_eq!(items[3], json_text("x"));
    assert_eq!(items[4].get("b"), Some(&json_integer(-1)));
    assert_eq!(json.get("c"), Some(&Json::Object(JsonObject::new())));
    assert_eq!(json.get("d"), None);
}

#[test]
fn the_last_of_two_entries_counts() {
    let json = parse_json("{\"a\": 1, \"a\": 2}").unwrap();
    assert_eq!(json.get("a"), Some(&json_integer(2)));
}

#[test]
fn a_number_is_carried_through() {
    let value: serde_json::Value = serde_json::from_str("1.5e300").unwrap();
    match (json_from_value(value.clone()), value) {
        (Json::Number(carried), serde_json::Value::Number(number)) => {
            assert_eq!(carried, number);
            assert_eq!(carried.to_string(), number.to_string());
        }
        _ => panic!("not a number"),
    }
}

#[test]
fn an_integer_is_the_number_that_its_digits_spell() {
    for integer in [0, 1, -1, i32::MAX, i32::MIN] {
        assert_eq!(
            json_integer(integer),
            parse_json(&integer.to_string()).unwrap()
        );
    }
}

#[test]
fn the_message_of_a_syntax_error_is_that_of_the_reader() {
    let text = "{\"a\": ";
    let message = serde_json::from_str::<serde_json::Value>(text)
        .unwrap_err()
        .to_string();
    assert_eq!(parse_json(text), Err(message));
    assert!(parse_json("").is_err());
    assert!(parse_json("{} {}").is_err());
}

#[test]
fn only_objects_have_entries_and_only_texts_have_characters() {
    assert_eq!(json_text("a").get("a"), None);
    assert_eq!(Json::List(vec![]).get("a"), None);
    assert_eq!(json_text("a").as_text(), Some("a"));
    assert_eq!(Json::Null.as_text(), None);
    assert_eq!(json_text("a").as_list(), None);
}

#[test]
fn a_new_entry_takes_the_place_of_the_old_one() {
    let mut object = JsonObject::new();
    assert_eq!(object.get("a"), None);
    object.insert("a", Json::Null);
    object.insert("b", Json::Bool(false));
    object.insert("a", Json::Bool(true));
    assert_eq!(object.get("a"), Some(&Json::Bool(true)));
    assert_eq!(object.get("b"), Some(&Json::Bool(false)));
}

#[test]
fn texts_become_a_list_in_their_order() {
    let expected = parse_json("[\"b\", \"a\"]").unwrap();
    assert_eq!(json_texts(&["b".to_string(), "a".to_string()]), expected);
    assert_eq!(json_names(&vec!["b", "a"]), expected);
}
