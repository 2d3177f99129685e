use searxng_client::decode::{decode_response, response_of_json, DecodeError, ResponseField};
use searxng_client::json::{parse_json, Json, Member, Number};
use searxng_client::response::{PriorityType, SearchResult};
use searxng_client::shape::{decode_legacy, decode_main, decode_result, ShapeDifference};
use searxng_client::time::{DateTime, Duration};

const LEGACY: &str = r#"{"url":"https://a.example/x","template":"default.html","engine":"duckduckgo","parsed_url":["https","a.example","/x","","",""],"title":"Alpha","content":"first","img_src":"","thumbnail":"","priority":"","engines":["duckduckgo","brave"],"positions":[1,3],"score":1.5,"category":"general","publishedDate":null,"pubdate":null}"#;

const MAIN: &str = r#"{"url":"https://b.example/v","engine":"youtube","parsed_url":["https","b.example","/v","","",""],"template":"videos.html","title":"Beta","content":"second","img_src":"https://b.example/i.png","iframe_src":"https://b.example/embed","audio_src":"","thumbnail":"https://b.example/t.png","publishedDate":"2024-01-15T10:30:00","pubdate":"2024-01-15 10:30:00","length":"PT1H2M3S","views":"1200","author":"someone","metadata":"","priority":"high","engines":["youtube"],"open_group":false,"close_group":true,"positions":[2],"score":4,"category":"videos"}"#;

fn element(text: &str) -> Json {
    parse_json(text).expect("the test's element is JSON")
}

fn members(text: &str) -> Vec<Member> {
    match element(text) {
        Json::Object(members) => members,
        other => panic!("not an object: {:?}", other),
    }
}

fn page(results: &str) -> String {
    format!(
        r#"{{"query":"rust","number_of_results":0,"results":[{}],"answers":[],"corrections":[],"infoboxes":[],"suggestions":[],"unresponsive_engines":[]}}"#,
        results
    )
}

#[test]
fn legacy_fields_decode_as_legacy_result() {
    match decode_result(&element(LEGACY)) {
        Ok(SearchResult::LegacyResult(r)) => {
            assert_eq!(r.url.as_deref(), Some("https://a.example/x"));
            assert_eq!(r.template, "default.html");
            assert_eq!(r.engine, "duckduckgo");
            assert_eq!(
                r.parsed_url,
                Some(vec![
                    "https".to_string(),
                    "a.example".to_string(),
                    "/x".to_string(),
                    String::new(),
                    String::new(),
                    String::new()
                ])
            );
            assert_eq!(r.title, "Alpha");
            assert_eq!(r.content, "first");
            assert_eq!(r.img_src, "");
            assert_eq!(r.thumbnail, "");
            assert_eq!(r.priority, PriorityType::Normal);
            assert_eq!(r.engines.to_vec(), vec!["duckduckgo".to_string(), "brave".to_string()]);
            assert_eq!(r.positions.to_vec(), vec![1, 3]);
            assert!(matches!(&r.score, Number::Fraction(s) if s == "1.5"));
            assert_eq!(r.category, "general");
            assert_eq!(r.published_date, None);
            assert_eq!(r.pubdate, None);
        }
        other => panic!("expected a legacy result, got {:?}", other),
    }
}

#[test]
fn main_only_field_decodes_as_main_result() {
    match decode_result(&element(MAIN)) {
        Ok(SearchResult::MainResult(r)) => {
            assert_eq!(r.url.as_deref(), Some("https://b.example/v"));
            assert_eq!(r.engine.as_deref(), Some("youtube"));
            assert_eq!(r.template, "videos.html");
            assert_eq!(r.title, "Beta");
            assert_eq!(r.content, "second");
            assert_eq!(r.img_src, "https://b.example/i.png");
            assert_eq!(r.iframe_src, "https://b.example/embed");
            assert_eq!(r.audio_src, "");
            assert_eq!(r.thumbnail, "https://b.example/t.png");
            assert_eq!(
                r.published_date,
                Some(DateTime {
                    year: 2024,
                    month: 1,
                    day: 15,
                    hour: 10,
                    minute: 30,
                    second: 0,
                    nanosecond: 0
                })
            );
            assert_eq!(r.pubdate.as_deref(), Some("2024-01-15 10:30:00"));
            assert_eq!(
                r.length,
                Some(Duration::Ymdhms {
                    year: 0,
                    month: 0,
                    day: 0,
                    hour: 1,
                    minute: 2,
                    second: 3,
                    millisecond: 0
                })
            );
            assert_eq!(r.views, "1200");
            assert_eq!(r.author, "someone");
            assert_eq!(r.metadata, "");
            assert_eq!(r.priority, PriorityType::High);
            assert_eq!(r.engines.to_vec(), vec!["youtube".to_string()]);
            assert!(!r.open_group);
            assert!(r.close_group);
            assert_eq!(r.positions.to_vec(), vec![2]);
            assert!(matches!(r.score, Number::Unsigned(4)));
            assert_eq!(r.category, "videos");
        }
        other => panic!("expected a main result, got {:?}", other),
    }
}

#[test]
fn main_only_field_first_or_last_decodes_as_main_result() {
    // The same element with its fields in two other orders, written by hand entry by entry.
    let mut forward = members(MAIN);
    let mut backward = members(MAIN);
    backward.reverse();
    let at = forward.iter().position(|m| m.key == "iframe_src").unwrap();
    let moved = forward.remove(at);
    forward.insert(0, moved);
    for order in [forward, backward] {
        assert!(decode_legacy(&order).is_none());
        let main = decode_main(&order).expect("the main shape does not depend on the order");
        assert_eq!(main.iframe_src, "https://b.example/embed");
        assert!(matches!(decode_result(&Json::Object(order)), Ok(SearchResult::MainResult(_))));
    }
}

#[test]
fn populated_media_field_on_legacy_fields_is_never_legacy() {
    // Legacy fields plus one media field: not legacy, and not main either, as
    // the other fields of the main shape are missing.
    let text = LEGACY.replacen('{', r#"{"audio_src":"https://a.example/s.mp3","#, 1);
    match decode_result(&element(&text)) {
        Err(mismatch) => {
            assert_eq!(mismatch.difference, ShapeDifference::IncompleteMain);
            assert!(mismatch.unmatched.is_empty());
        }
        other => panic!("expected a mismatch, got {:?}", other),
    }
}

#[test]
fn legacy_shape_is_tried_first_and_main_second() {
    let legacy = members(LEGACY);
    assert!(decode_legacy(&legacy).is_some());
    assert!(decode_main(&legacy).is_none());
    let main = members(MAIN);
    assert!(decode_legacy(&main).is_none());
    assert!(decode_main(&main).is_some());
}

#[test]
fn unknown_field_is_a_schema_mismatch() {
    let text = LEGACY.replacen('{', r#"{"favicon":"x","zzz":1,"#, 1);
    match decode_result(&element(&text)) {
        Err(mismatch) => {
            assert_eq!(mismatch.difference, ShapeDifference::UnknownFields);
            assert_eq!(mismatch.unmatched, vec!["favicon".to_string(), "zzz".to_string()]);
        }
        other => panic!("expected a mismatch, got {:?}", other),
    }
}

#[test]
fn unknown_field_fails_the_page() {
    let bad = MAIN.replacen('{', r#"{"brand_new":true,"#, 1);
    let body = page(&format!("{},{},{}", LEGACY, bad, MAIN));
    match decode_response(&body) {
        Err(DecodeError::SchemaMismatch { index, mismatch }) => {
            assert_eq!(index, 1);
            assert_eq!(mismatch.difference, ShapeDifference::UnknownFields);
            assert_eq!(mismatch.unmatched, vec!["brand_new".to_string()]);
        }
        other => panic!("expected a schema mismatch, got {:?}", other),
    }
}

#[test]
fn missing_legacy_field_is_incomplete_legacy() {
    let text = LEGACY.replacen(r#""title":"Alpha","#, "", 1);
    match decode_result(&element(&text)) {
        Err(mismatch) => {
            assert_eq!(mismatch.difference, ShapeDifference::IncompleteLegacy);
            assert!(mismatch.unmatched.is_empty());
        }
        other => panic!("expected a mismatch, got {:?}", other),
    }
}

#[test]
fn element_that_is_no_object_is_a_mismatch() {
    for text in ["[1,2]", "\"text\"", "7", "null", "true"] {
        match decode_result(&element(text)) {
            Err(mismatch) => {
                assert_eq!(mismatch.difference, ShapeDifference::NotAnObject);
                assert!(mismatch.unmatched.is_empty());
            }
            other => panic!("expected a mismatch, got {:?}", other),
        }
    }
}

#[test]
fn wrong_kind_of_value_is_a_mismatch() {
    // score must be a number, positions whole numbers of 32 bits, priority one of three texts
    for (from, to) in [
        (r#""score":1.5"#, r#""score":"1.5""#),
        (r#""positions":[1,3]"#, r#""positions":[1.5]"#),
        (r#""positions":[1,3]"#, r#""positions":[2147483648]"#),
        (r#""positions":[1,3]"#, r#""positions":null"#),
        (r#""priority":"""#, r#""priority":"urgent""#),
        (r#""engines":["duckduckgo","brave"]"#, r#""engines":["duckduckgo",3]"#),
        (r#""publishedDate":null"#, r#""publishedDate":"yesterday""#),
        (r#""url":"https://a.example/x""#, r#""url":17"#),
    ] {
        let text = LEGACY.replacen(from, to, 1);
        assert_ne!(text, LEGACY);
        assert!(decode_result(&element(&text)).is_err(), "{}", to);
    }
}

#[test]
fn positions_at_the_edges_of_32_bits() {
    let text = LEGACY.replacen(r#""positions":[1,3]"#, r#""positions":[2147483647,-2147483648,0]"#, 1);
    match decode_result(&element(&text)) {
        Ok(SearchResult::LegacyResult(r)) => {
            assert_eq!(r.positions.to_vec(), vec![i32::MAX, i32::MIN, 0]);
        }
        other => panic!("expected a legacy result, got {:?}", other),
    }
    let text = LEGACY.replacen(r#""positions":[1,3]"#, r#""positions":[-2147483649]"#, 1);
    assert!(decode_result(&element(&text)).is_err());
}

#[test]
fn absent_lists_are_empty_lists() {
    let text = LEGACY
        .replacen(r#""positions":[1,3],"#, "", 1)
        .replacen(r#""engines":["duckduckgo","brave"],"#, "", 1);
    match decode_result(&element(&text)) {
        Ok(SearchResult::LegacyResult(r)) => {
            assert_eq!(r.positions.len(), 0);
            assert_eq!(r.engines.len(), 0);
            assert_eq!(r.positions.to_vec(), Vec::<i32>::new());
            assert_eq!(r.engines.to_vec(), Vec::<String>::new());
        }
        other => panic!("expected a legacy result, got {:?}", other),
    }
}

#[test]
fn optional_fields_may_be_absent_or_null() {
    let text = LEGACY
        .replacen(r#""url":"https://a.example/x","#, "", 1)
        .replacen(r#","publishedDate":null,"pubdate":null"#, "", 1)
        .replacen(r#""parsed_url":["https","a.example","/x","","",""],"#, r#""parsed_url":null,"#, 1);
    match decode_result(&element(&text)) {
        Ok(SearchResult::LegacyResult(r)) => {
            assert_eq!(r.url, None);
            assert_eq!(r.parsed_url, None);
            assert_eq!(r.published_date, None);
            assert_eq!(r.pubdate, None);
        }
        other => panic!("expected a legacy result, got {:?}", other),
    }
}

#[test]
fn priorities_on_the_wire() {
    for (wire, priority) in
        [("", PriorityType::Normal), ("high", PriorityType::High), ("low", PriorityType::Low)]
    {
        let text = LEGACY.replacen(r#""priority":"""#, &format!(r#""priority":"{}""#, wire), 1);
        match decode_result(&element(&text)) {
            Ok(SearchResult::LegacyResult(r)) => assert_eq!(r.priority, priority),
            other => panic!("expected a legacy result, got {:?}", other),
        }
    }
}

#[test]
fn engine_error_decodes_from_a_pair() {
    let body = r#"{"query":"q","number_of_results":12,"results":[],"answers":[],"corrections":[],"infoboxes":[],"suggestions":[],"unresponsive_engines":[["enginename","error text"],["other","timeout"]]}"#;
    let response = decode_response(body).expect("a response");
    assert_eq!(response.unresponsive_engines.len(), 2);
    assert_eq!(response.unresponsive_engines[0].engine, "enginename");
    assert_eq!(response.unresponsive_engines[0].error_msg, "error text");
    assert_eq!(response.unresponsive_engines[1].engine, "other");
    assert_eq!(response.unresponsive_engines[1].error_msg, "timeout");
}

#[test]
fn engine_error_must_be_a_pair_of_texts() {
    for engines in [r#"[["only one"]]"#, r#"[["a","b","c"]]"#, r#"[["a",1]]"#, r#"[{"engine":"a"}]"#, r#""a""#]
    {
        let body = format!(
            r#"{{"query":"q","number_of_results":0,"results":[],"answers":[],"corrections":[],"infoboxes":[],"suggestions":[],"unresponsive_engines":{}}}"#,
            engines
        );
        assert!(
            matches!(
                decode_response(&body),
                Err(DecodeError::Field(ResponseField::UnresponsiveEngines))
            ),
            "{}",
            engines
        );
    }
}

#[test]
fn engine_error_from_a_tuple() {
    let error = searxng_client::response::EngineError::from(("brave".to_string(), "too many requests".to_string()));
    assert_eq!(error.engine, "brave");
    assert_eq!(error.error_msg, "too many requests");
}

#[test]
fn whole_response_decodes() {
    let body = format!(
        r#"{{"query":"rust","number_of_results":1234,"results":[{},{}],"answers":[[{{"url":"https://w.example","engine":"wikidata","parsed_url":null}},{{}}],[]],"corrections":["rust lang"],"infoboxes":[{{"infobox":"Rust","id":"https://en.wikipedia.org/wiki/Rust","content":"A language.","urls":[{{"title":"Wikipedia","url":"https://en.wikipedia.org/wiki/Rust","official":true}}],"attributes":[{{"label":"Paradigm","value":"multi","rank":1.5}}],"engine":"wikipedia","url":null,"img_src":"","template":"infobox.html","parsed_url":null,"title":"Rust","thumbnail":"","priority":"low","engines":["wikipedia"],"positions":"","score":0,"category":"general","publishedDate":null,"pubdate":null,"extra":"ignored"}}],"suggestions":["rust book","rust game"],"unresponsive_engines":[],"future_field":{{"tolerated":true}}}}"#,
        LEGACY, MAIN
    );
    let response = decode_response(&body).expect("a response");
    assert_eq!(response.query, "rust");
    assert_eq!(response.number_of_results, 1234);
    assert_eq!(response.results.len(), 2);
    assert!(matches!(response.results[0], SearchResult::LegacyResult(_)));
    assert!(matches!(response.results[1], SearchResult::MainResult(_)));
    assert_eq!(response.answers.len(), 2);
    assert_eq!(response.answers[0].len(), 2);
    assert_eq!(response.answers[0][0].url.as_deref(), Some("https://w.example"));
    assert_eq!(response.answers[0][0].engine.as_deref(), Some("wikidata"));
    assert_eq!(response.answers[0][0].parsed_url, None);
    assert_eq!(response.answers[0][1].url, None);
    assert_eq!(response.answers[1].len(), 0);
    assert_eq!(response.corrections, vec!["rust lang".to_string()]);
    assert_eq!(response.suggestions, vec!["rust book".to_string(), "rust game".to_string()]);
    assert_eq!(response.unresponsive_engines.len(), 0);
    assert_eq!(response.infoboxes.len(), 1);
    let infobox = &response.infoboxes[0];
    assert_eq!(infobox.infobox, "Rust");
    assert_eq!(infobox.id, "https://en.wikipedia.org/wiki/Rust");
    assert_eq!(infobox.content, "A language.");
    assert_eq!(infobox.engine, "wikipedia");
    assert_eq!(infobox.url, None);
    assert_eq!(infobox.template, "infobox.html");
    assert_eq!(infobox.title, "Rust");
    assert_eq!(infobox.priority, PriorityType::Low);
    assert_eq!(infobox.engines.to_vec(), vec!["wikipedia".to_string()]);
    assert_eq!(infobox.positions, "");
    assert!(matches!(infobox.score, Number::Unsigned(0)));
    assert_eq!(infobox.category, "general");
    let urls = infobox.urls.as_ref().expect("urls");
    assert_eq!(urls.len(), 1);
    let keys: Vec<&str> = urls[0].iter().map(|m| m.key.as_str()).collect();
    assert_eq!(keys, vec!["official", "title", "url"]);
    assert!(matches!(urls[0][0].value, Json::Bool(true)));
    assert!(matches!(&urls[0][1].value, Json::Text(s) if s == "Wikipedia"));
    let attributes = infobox.attributes.as_ref().expect("attributes");
    assert_eq!(attributes.len(), 1);
    assert!(attributes[0].iter().any(
        |m| m.key == "rank" && matches!(&m.value, Json::Number(Number::Fraction(s)) if s == "1.5")
    ));
}

#[test]
fn number_of_results_need_not_match_the_results() {
    let response = decode_response(&page(LEGACY)).expect("a response");
    assert_eq!(response.number_of_results, 0);
    assert_eq!(response.results.len(), 1);
}

#[test]
fn payload_that_is_not_json_is_a_syntax_error() {
    for body in ["", "<html>502</html>", r#"{"query":"#, r#"{"query":"q"} trailing"#] {
        assert!(matches!(decode_response(body), Err(DecodeError::Syntax)), "{}", body);
    }
}

#[test]
fn document_that_is_no_object_is_refused() {
    for body in ["[]", "3", "\"text\"", "null"] {
        assert!(matches!(decode_response(body), Err(DecodeError::NotAnObject)), "{}", body);
    }
}

#[test]
fn every_top_level_field_is_required() {
    let fields = [
        (r#""query":"rust","#, ResponseField::Query),
        (r#""number_of_results":0,"#, ResponseField::NumberOfResults),
        (r#""results":[],"#, ResponseField::Results),
        (r#""answers":[],"#, ResponseField::Answers),
        (r#""corrections":[],"#, ResponseField::Corrections),
        (r#""infoboxes":[],"#, ResponseField::Infoboxes),
        (r#""suggestions":[],"#, ResponseField::Suggestions),
        (r#","unresponsive_engines":[]"#, ResponseField::UnresponsiveEngines),
    ];
    let whole = page("");
    assert!(decode_response(&whole).is_ok());
    for (text, field) in fields {
        let body = whole.replacen(text, "", 1);
        assert_ne!(body, whole);
        match decode_response(&body) {
            Err(DecodeError::Field(f)) => assert_eq!(f, field),
            other => panic!("expected a missing field, got {:?}", other),
        }
    }
}

#[test]
fn first_failing_field_decides_the_error() {
    // query and answers are both wrong: query is checked first
    let body = page("").replacen(r#""query":"rust""#, r#""query":5"#, 1).replacen(
        r#""answers":[]"#,
        r#""answers":7"#,
        1,
    );
    assert!(matches!(decode_response(&body), Err(DecodeError::Field(ResponseField::Query))));
    // a result that fits no shape is reported before a later field
    let body = page("{}").replacen(r#""answers":[]"#, r#""answers":7"#, 1);
    assert!(matches!(decode_response(&body), Err(DecodeError::SchemaMismatch { index: 0, .. })));
}

#[test]
fn count_must_be_a_whole_number_of_64_bits() {
    let at = |n: &str| decode_response(&page("").replacen(r#""number_of_results":0"#, &format!(r#""number_of_results":{}"#, n), 1));
    assert_eq!(at("9223372036854775807").unwrap().number_of_results, i64::MAX);
    assert_eq!(at("-9223372036854775808").unwrap().number_of_results, i64::MIN);
    assert_eq!(at("-5").unwrap().number_of_results, -5);
    for n in ["9223372036854775808", "1.0", "\"3\"", "null"] {
        assert!(matches!(at(n), Err(DecodeError::Field(ResponseField::NumberOfResults))), "{}", n);
    }
}

#[test]
fn schema_mismatch_is_told_from_a_syntax_error() {
    assert!(!DecodeError::Syntax.is_schema_mismatch());
    assert!(DecodeError::NotAnObject.is_schema_mismatch());
    assert!(DecodeError::Field(ResponseField::Results).is_schema_mismatch());
    match decode_response(&page("{}")) {
        Err(error) => assert!(error.is_schema_mismatch()),
        Ok(_) => panic!("an empty object is no result"),
    }
}

#[test]
fn document_built_by_hand_decodes_like_its_text() {
    let field = |key: &str, value: Json| Member { key: key.to_string(), value };
    let doc = Json::Object(vec![
        field("unresponsive_engines", Json::Array(vec![])),
        field("suggestions", Json::Array(vec![Json::Text("s".to_string())])),
        field("infoboxes", Json::Array(vec![])),
        field("corrections", Json::Array(vec![])),
        field("answers", Json::Array(vec![])),
        field("results", Json::Array(vec![])),
        field("number_of_results", Json::Number(Number::Unsigned(3))),
        field("query", Json::Text("first".to_string())),
        field("query", Json::Text("second".to_string())),
    ]);
    let response = response_of_json(&doc).expect("a response");
    // of two entries with one key the first counts
    assert_eq!(response.query, "first");
    assert_eq!(response.number_of_results, 3);
    assert_eq!(response.suggestions, vec!["s".to_string()]);
}
