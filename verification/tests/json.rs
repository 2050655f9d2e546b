use openweather_onecall::{Json, Number};

#[test]
fn read_keeps_members_and_numbers() {
    let json = Json::read(br#"{"a": 1, "b": -2, "c": 1.5, "d": [true, null, "x"]}"#).unwrap();
    assert!(matches!(json.get("a"), Some(Json::Number(Number::Unsigned(1)))));
    assert!(matches!(json.get("b"), Some(Json::Number(Number::Signed(-2)))));
    match json.get("c") {
        Some(Json::Number(Number::Double(bits))) => assert_eq!(f64::from_bits(*bits), 1.5),
        other => panic!("unexpected {:?}", other),
    }
    match json.get("d") {
        Some(Json::List(items)) => {
            assert_eq!(items.len(), 3);
            assert!(matches!(items[0], Json::Bool(true)));
            assert!(matches!(items[1], Json::Null));
            assert!(matches!(&items[2], Json::Text(s) if s == "x"));
        }
        other => panic!("unexpected {:?}", other),
    }
    assert!(json.get("e").is_none());
}

#[test]
fn read_rejects_what_is_not_json() {
    assert!(Json::read(b"{\"a\": ").is_err());
    assert!(Json::read(b"").is_err());
}

#[test]
fn read_keeps_the_form_of_each_number() {
    let json = Json::read(b"[0, 18446744073709551615, -1, -9223372036854775808, 1e2, -0, 0.1, 18446744073709551616]").unwrap();
    let expected = [
        Number::Unsigned(0),
        Number::Unsigned(u64::MAX),
        Number::Signed(-1),
        Number::Signed(i64::MIN),
        Number::Double(100f64.to_bits()),
        Number::Double((-0f64).to_bits()),
        Number::Double(0.1f64.to_bits()),
        Number::Double(18446744073709551616f64.to_bits()),
    ];
    match json {
        Json::List(items) => {
            assert_eq!(items.len(), expected.len());
            for (item, number) in items.iter().zip(expected) {
                assert!(matches!(item, Json::Number(n) if *n == number), "{:?}", item);
            }
        }
        other => panic!("unexpected {:?}", other),
    }
}

#[test]
fn read_keeps_nested_values() {
    let json = Json::read(br#"{"b": {"c": [[], {}, [{"d": "e"}]]}, "a": false}"#).unwrap();
    assert!(matches!(json.get("a"), Some(Json::Bool(false))));
    let inner = json.get("b").unwrap().get("c").unwrap();
    match inner {
        Json::List(items) => {
            assert!(matches!(&items[0], Json::List(none) if none.is_empty()));
            assert!(matches!(&items[1], Json::Object(none) if none.is_empty()));
            match &items[2] {
                Json::List(last) => {
                    assert!(matches!(last[0].get("d"), Some(Json::Text(s)) if s == "e"))
                }
                other => panic!("unexpected {:?}", other),
            }
        }
        other => panic!("unexpected {:?}", other),
    }
}

#[test]
fn read_takes_the_last_of_two_members_with_one_key() {
    let json = Json::read(br#"{"a": 1, "a": 2}"#).unwrap();
    assert!(matches!(json.get("a"), Some(Json::Number(Number::Unsigned(2)))));
}

#[test]
fn read_rejects_what_is_nested_too_deep() {
    let deep = "[".repeat(127) + &"]".repeat(127);
    assert!(Json::read(deep.as_bytes()).is_ok());
    let deeper = "[".repeat(200) + &"]".repeat(200);
    assert!(Json::read(deeper.as_bytes()).is_err());
}
