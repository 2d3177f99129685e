use searxng_client::json::{copy_members, find, parse_json, Json, Member, Number};
use searxng_client::language::LanguageTag;
use searxng_client::small::{EngineList, PositionList};
use searxng_client::text::same_text;
use searxng_client::time::{DateTime, Duration};

#[test]
fn json_values_of_every_kind() {
    let doc = parse_json(r#" [null, true, false, 0, 17, -3, 2.5, "a\"bé\n", [], {}] "#).unwrap();
    let Json::Array(items) = doc else { panic!("an array") };
    assert_eq!(items.len(), 10);
    assert!(matches!(items[0], Json::Null));
    assert!(matches!(items[1], Json::Bool(true)));
    assert!(matches!(items[2], Json::Bool(false)));
    assert!(matches!(items[3], Json::Number(Number::Unsigned(0))));
    assert!(matches!(items[4], Json::Number(Number::Unsigned(17))));
    assert!(matches!(items[5], Json::Number(Number::Negative(-3))));
    assert!(matches!(&items[6], Json::Number(Number::Fraction(s)) if s == "2.5"));
    assert!(matches!(&items[7], Json::Text(s) if s == "a\"bé\n"));
    assert!(matches!(&items[8], Json::Array(v) if v.is_empty()));
    assert!(matches!(&items[9], Json::Object(v) if v.is_empty()));
}

#[test]
fn json_numbers_at_the_edges() {
    let doc = parse_json("[18446744073709551615, 18446744073709551616, -9223372036854775808, -9223372036854775809, 1e3, -0]").unwrap();
    let Json::Array(items) = doc else { panic!("an array") };
    assert!(matches!(items[0], Json::Number(Number::Unsigned(u64::MAX))));
    assert!(matches!(&items[1], Json::Number(Number::Fraction(_))));
    assert!(matches!(items[2], Json::Number(Number::Negative(i64::MIN))));
    assert!(matches!(&items[3], Json::Number(Number::Fraction(_))));
    assert!(matches!(&items[4], Json::Number(Number::Fraction(s)) if s == "1000.0"));
    assert!(matches!(&items[5], Json::Number(Number::Fraction(s)) if s == "-0.0"));
}

#[test]
fn json_objects_keep_every_key_once() {
    let doc = parse_json(r#"{"b": {"y": [1, {"z": null}]}, "a": 1, "b2": "x", "a": 2}"#).unwrap();
    let Json::Object(members) = doc else { panic!("an object") };
    let keys: Vec<&str> = members.iter().map(|m| m.key.as_str()).collect();
    assert_eq!(keys, vec!["a", "b", "b2"]);
    assert!(matches!(find(&members, "a"), Some(Json::Number(Number::Unsigned(2)))));
    assert!(matches!(find(&members, "b2"), Some(Json::Text(s)) if s == "x"));
    assert!(find(&members, "c").is_none());
    assert!(find(&members, "").is_none());
    let Some(Json::Object(inner)) = find(&members, "b") else { panic!("an object") };
    let Some(Json::Array(list)) = find(inner, "y") else { panic!("an array") };
    assert_eq!(list.len(), 2);
    assert!(matches!(&list[1], Json::Object(m) if m.len() == 1 && m[0].key == "z"));
}

#[test]
fn what_is_not_json() {
    for text in ["", "   ", "{", "[1,]", "{'a':1}", "01", "nul", "1 2", "{\"a\":1}}", "\"open"] {
        assert!(parse_json(text).is_none(), "{}", text);
    }
}

#[test]
fn first_entry_of_a_key_is_found() {
    let members = vec![
        Member { key: "k".to_string(), value: Json::Bool(true) },
        Member { key: "other".to_string(), value: Json::Null },
        Member { key: "k".to_string(), value: Json::Bool(false) },
    ];
    assert!(matches!(find(&members, "k"), Some(Json::Bool(true))));
    assert!(matches!(find(&members, "other"), Some(Json::Null)));
    assert!(find(&members, "K").is_none());
    assert!(find(&Vec::new(), "k").is_none());
}

#[test]
fn copies_are_equal_and_apart() {
    let doc = parse_json(r#"{"a": [1, -2, 3.5, "t", null, {"b": [true]}], "c": {}}"#).unwrap();
    let copy = doc.copy();
    assert_eq!(format!("{:?}", copy), format!("{:?}", doc));
    let clone = doc.clone();
    assert_eq!(format!("{:?}", clone), format!("{:?}", doc));
    let Json::Object(members) = doc else { panic!("an object") };
    let copied = copy_members(&members);
    assert_eq!(format!("{:?}", copied), format!("{:?}", members));
    assert_eq!(format!("{:?}", members[0].copy()), format!("{:?}", members[0]));
    let n = Number::Fraction("0.25".to_string());
    assert!(matches!(n.copy(), Number::Fraction(s) if s == "0.25"));
    assert!(matches!(Number::Negative(-9).clone(), Number::Negative(-9)));
}

#[test]
fn dates_as_the_backend_writes_them() {
    assert_eq!(
        DateTime::parse("2015-09-18T23:56:04"),
        Some(DateTime { year: 2015, month: 9, day: 18, hour: 23, minute: 56, second: 4, nanosecond: 0 })
    );
    assert_eq!(
        DateTime::parse("2024-02-29T00:00:00.25"),
        Some(DateTime {
            year: 2024,
            month: 2,
            day: 29,
            hour: 0,
            minute: 0,
            second: 0,
            nanosecond: 250_000_000
        })
    );
    // a leap second is second 59 with the nanoseconds running over
    assert_eq!(
        DateTime::parse("+12345-6-7T7:59:60.5"),
        Some(DateTime {
            year: 12345,
            month: 6,
            day: 7,
            hour: 7,
            minute: 59,
            second: 59,
            nanosecond: 1_500_000_000
        })
    );
    for text in ["", "foo", "2023-02-29T00:00:00", "2015-09-18", "2015-09-18 23:56:04", "2015-13-01T00:00:00", "2015-09-18T25:00:00"] {
        assert_eq!(DateTime::parse(text), None, "{}", text);
    }
}

#[test]
fn durations_as_the_backend_writes_them() {
    assert_eq!(
        Duration::parse("P1Y2M3DT4H5M6S"),
        Some(Duration::Ymdhms { year: 1, month: 2, day: 3, hour: 4, minute: 5, second: 6, millisecond: 0 })
    );
    assert_eq!(
        Duration::parse("P2021Y11M16DT23H26M59.123S"),
        Some(Duration::Ymdhms {
            year: 2021,
            month: 11,
            day: 16,
            hour: 23,
            minute: 26,
            second: 59,
            millisecond: 123
        })
    );
    assert_eq!(
        Duration::parse("PT3M"),
        Some(Duration::Ymdhms { year: 0, month: 0, day: 0, hour: 0, minute: 3, second: 0, millisecond: 0 })
    );
    assert_eq!(Duration::parse("P2W"), Some(Duration::Weeks(2)));
    for text in ["", "3:21", "P", "1Y", "PW"] {
        assert_eq!(Duration::parse(text), None, "{}", text);
    }
}

#[test]
fn language_tags_in_normal_form() {
    for (text, tag) in [
        ("en", "en"),
        ("en-us", "en-US"),
        ("EN-LATN-gb", "en-Latn-GB"),
        ("zh-hant-tw", "zh-Hant-TW"),
        ("x-Private", "x-private"),
        ("i-klingon", "i-klingon"),
    ] {
        let parsed = LanguageTag::parse(text).expect(text);
        assert_eq!(parsed.as_str(), tag);
        assert_eq!(parsed.clone().as_str(), tag);
        assert!(parsed.same(&LanguageTag::parse(tag).expect(tag)));
    }
    for text in ["", "e", "en-", "en--us", "toolongsubtag", "en_US", "x-", "a b"] {
        assert!(LanguageTag::parse(text).is_none(), "{}", text);
    }
    assert!(!LanguageTag::parse("en").unwrap().same(&LanguageTag::parse("de").unwrap()));
}

#[test]
fn position_lists() {
    let mut list = PositionList::new();
    assert_eq!(list.len(), 0);
    assert_eq!(list.get(0), None);
    assert_eq!(list.to_vec(), Vec::<i32>::new());
    for p in [3, -1, 3, 9, 12] {
        list.push(p);
    }
    assert_eq!(list.len(), 5);
    assert_eq!(list.get(0), Some(3));
    assert_eq!(list.get(1), Some(-1));
    assert_eq!(list.get(4), Some(12));
    assert_eq!(list.get(5), None);
    assert_eq!(list.to_vec(), vec![3, -1, 3, 9, 12]);
    let copy = list.clone();
    list.push(100);
    assert_eq!(copy.to_vec(), vec![3, -1, 3, 9, 12]);
    assert_eq!(list.to_vec(), vec![3, -1, 3, 9, 12, 100]);
    assert_eq!(PositionList::from_vec(&vec![i32::MIN, 0, i32::MAX]).to_vec(), vec![i32::MIN, 0, i32::MAX]);
}

#[test]
fn engine_lists() {
    let mut list = EngineList::new();
    assert_eq!(list.len(), 0);
    assert!(list.get(0).is_none());
    for name in ["brave", "duckduckgo", "brave", "startpage", "qwant"] {
        list.push(name.to_string());
    }
    assert_eq!(list.len(), 5);
    assert_eq!(list.get(0).map(|s| s.as_str()), Some("brave"));
    assert_eq!(list.get(3).map(|s| s.as_str()), Some("startpage"));
    assert!(list.get(5).is_none());
    assert_eq!(list.to_vec(), vec!["brave", "duckduckgo", "brave", "startpage", "qwant"]);
    let copy = list.clone();
    list.push("mojeek".to_string());
    assert_eq!(copy.len(), 5);
    assert_eq!(list.len(), 6);
    let from = EngineList::from_vec(&vec!["a".to_string(), String::new()]);
    assert_eq!(from.to_vec(), vec!["a".to_string(), String::new()]);
}

#[test]
fn texts_are_compared_by_their_characters() {
    assert!(same_text("", ""));
    assert!(same_text("title", "title"));
    assert!(!same_text("title", "titles"));
    assert!(!same_text("title", "Title"));
    assert!(!same_text("abc", "abd"));
    assert!(same_text("é日本", "é日本"));
    assert!(!same_text("é", "e"));
}
