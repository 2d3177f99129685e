use searxng_client::client::{Request, ResponseFormat, SearXNGClient};
use searxng_client::decode::{decode_response, DecodeError};
use searxng_client::paging::{page_event, PageEvent, Pagination, Phase};
use searxng_client::response::SearchResult;

fn result_text(title: &str) -> String {
    format!(
        r#"{{"url":null,"template":"default.html","engine":"e","parsed_url":null,"title":"{}","content":"","img_src":"","thumbnail":"","priority":"","engines":["e"],"positions":[1],"score":1,"category":"general","publishedDate":null,"pubdate":null}}"#,
        title
    )
}

fn body(titles: &[String]) -> String {
    let results: Vec<String> = titles.iter().map(|t| result_text(t)).collect();
    format!(
        r#"{{"query":"rust","number_of_results":100,"results":[{}],"answers":[],"corrections":[],"infoboxes":[],"suggestions":[],"unresponsive_engines":[]}}"#,
        results.join(",")
    )
}

fn titles(page: u32, count: u32) -> Vec<String> {
    (0..count).map(|i| format!("p{}r{}", page, i)).collect()
}

fn results(page: u32, count: u32) -> Vec<SearchResult> {
    decode_response(&body(&titles(page, count))).expect("a page").results
}

fn title(result: &SearchResult) -> String {
    match result {
        SearchResult::LegacyResult(r) => r.title.clone(),
        SearchResult::MainResult(r) => r.title.clone(),
    }
}

fn page_of(request: &Request) -> String {
    request
        .form
        .iter()
        .find(|f| f.name == "pageno")
        .map(|f| f.value.clone())
        .expect("a request of a run names its page")
}

fn wanted_page(run: &Pagination) -> Option<String> {
    run.request().map(|r| page_of(&r))
}

#[test]
fn two_full_pages_then_three_empty_answers() {
    // query "rust", 25 wanted; pages 1 and 2 hold 10 results each, page 3 is
    // empty three times in a row: the 20 results, and no error.
    let client = SearXNGClient::new("http://localhost:8089/", ResponseFormat::Json);
    let mut run = client.search("rust").send_get_num(25);
    let mut asked: Vec<String> = Vec::new();
    let answers = [results(1, 10), results(2, 10), vec![], vec![], vec![]];
    for answer in answers {
        let request = run.request().expect("the run still wants a page");
        assert_eq!(request.url, "http://localhost:8089/search");
        assert_eq!(request.form[0].name, "q");
        assert_eq!(request.form[0].value, "rust");
        asked.push(page_of(&request));
        run = run.accept(PageEvent::Results(answer));
    }
    assert_eq!(asked, vec!["1", "2", "3", "3", "3"]);
    assert_eq!(run.phase(), Phase::Exhausted);
    assert!(run.request().is_none());
    let list = run.finish().expect("exhaustion is no error");
    assert_eq!(list.len(), 20);
    let mut expected = titles(1, 10);
    expected.extend(titles(2, 10));
    assert_eq!(list.iter().map(title).collect::<Vec<_>>(), expected);
}

#[test]
fn more_than_wanted_is_cut_off_at_the_wanted_number() {
    let client = SearXNGClient::new("http://localhost:8089", ResponseFormat::Json);
    let mut run = client.search("rust").send_get_num(25);
    for page in 1..=3 {
        assert_eq!(run.phase(), Phase::Fetching);
        assert_eq!(run.page(), page as u64);
        run = run.accept(PageEvent::Results(results(page, 10)));
    }
    assert_eq!(run.phase(), Phase::Complete);
    assert!(run.request().is_none());
    let list = run.finish().expect("a complete run");
    assert_eq!(list.len(), 25);
    let mut expected = titles(1, 10);
    expected.extend(titles(2, 10));
    expected.extend(titles(3, 5));
    assert_eq!(list.iter().map(title).collect::<Vec<_>>(), expected);
}

#[test]
fn exactly_as_many_as_wanted_completes_the_run() {
    let client = SearXNGClient::new("http://localhost:8089", ResponseFormat::Json);
    let mut run = client.search("rust").send_get_num(20);
    run = run.accept(PageEvent::Results(results(1, 10)));
    assert_eq!(run.phase(), Phase::Fetching);
    run = run.accept(PageEvent::Results(results(2, 10)));
    assert_eq!(run.phase(), Phase::Complete);
    assert_eq!(run.finish().unwrap().len(), 20);
}

#[test]
fn third_empty_answer_ends_the_run_without_a_fourth_attempt() {
    let client = SearXNGClient::new("http://localhost:8089", ResponseFormat::Json);
    let mut run = client.search("nothing").send_get_num(5);
    run = run.accept(PageEvent::Results(vec![]));
    assert_eq!(run.phase(), Phase::Fetching);
    assert_eq!(wanted_page(&run).as_deref(), Some("1"));
    run = run.accept(PageEvent::Results(vec![]));
    assert_eq!(run.phase(), Phase::Fetching);
    assert_eq!(wanted_page(&run).as_deref(), Some("1"));
    run = run.accept(PageEvent::Results(vec![]));
    assert_eq!(run.phase(), Phase::Exhausted);
    assert!(run.request().is_none());
    // whatever comes in now is not taken
    run = run.accept(PageEvent::Results(results(1, 3)));
    assert_eq!(run.phase(), Phase::Exhausted);
    assert_eq!(run.finish().unwrap().len(), 0);
}

#[test]
fn empty_answers_are_counted_per_page() {
    let client = SearXNGClient::new("http://localhost:8089", ResponseFormat::Json);
    let mut run = client.search("rust").send_get_num(5);
    run = run.accept(PageEvent::Results(vec![]));
    run = run.accept(PageEvent::Results(vec![]));
    run = run.accept(PageEvent::Results(results(1, 2)));
    assert_eq!(wanted_page(&run).as_deref(), Some("2"));
    run = run.accept(PageEvent::Results(vec![]));
    run = run.accept(PageEvent::Results(vec![]));
    assert_eq!(run.phase(), Phase::Fetching);
    run = run.accept(PageEvent::Results(vec![]));
    assert_eq!(run.phase(), Phase::Exhausted);
    assert_eq!(run.finish().unwrap().len(), 2);
}

#[test]
fn failed_attempt_repeats_the_page_and_keeps_the_count() {
    let client = SearXNGClient::new("http://localhost:8089", ResponseFormat::Json);
    let mut run = client.search("rust").send_get_num(5);
    run = run.accept(PageEvent::Results(results(1, 1)));
    assert_eq!(wanted_page(&run).as_deref(), Some("2"));
    run = run.accept(PageEvent::Results(vec![]));
    run = run.accept_failure();
    run = run.accept(PageEvent::Results(vec![]));
    run = run.accept_failure();
    run = run.accept_failure();
    assert_eq!(run.phase(), Phase::Fetching);
    assert_eq!(wanted_page(&run).as_deref(), Some("2"));
    // the third empty answer to page 2, with failed attempts in between
    run = run.accept(PageEvent::Results(vec![]));
    assert_eq!(run.phase(), Phase::Exhausted);
    assert_eq!(run.finish().unwrap().len(), 1);
}

#[test]
fn failures_are_retried_without_limit() {
    let client = SearXNGClient::new("http://localhost:8089", ResponseFormat::Json);
    let mut run = client.search("rust").send_get_num(1);
    for _ in 0..1000 {
        run = run.accept_failure();
        assert_eq!(run.phase(), Phase::Fetching);
        assert_eq!(run.page(), 1);
    }
    run = run.accept(PageEvent::Results(results(1, 1)));
    assert_eq!(run.phase(), Phase::Complete);
}

#[test]
fn bodies_drive_the_run() {
    let client = SearXNGClient::new("http://localhost:8089", ResponseFormat::Json);
    let mut run = client.search("rust").send_get_num(3);
    run = run.accept_body(&body(&titles(1, 2)));
    assert_eq!(run.phase(), Phase::Fetching);
    assert_eq!(run.page(), 2);
    // what is not JSON counts as a failed attempt
    run = run.accept_body("<html>bad gateway</html>");
    assert_eq!(run.phase(), Phase::Fetching);
    assert_eq!(run.page(), 2);
    run = run.accept_body(&body(&titles(2, 2)));
    assert_eq!(run.phase(), Phase::Complete);
    let list = run.finish().unwrap();
    assert_eq!(list.iter().map(title).collect::<Vec<_>>(), vec!["p1r0", "p1r1", "p2r0"]);
}

#[test]
fn unknown_shape_ends_the_run_with_the_error() {
    let client = SearXNGClient::new("http://localhost:8089", ResponseFormat::Json);
    let mut run = client.search("rust").send_get_num(30);
    run = run.accept_body(&body(&titles(1, 10)));
    let drifted = body(&titles(2, 2)).replacen(r#"{"url":null,"#, r#"{"url":null,"new_field":1,"#, 1);
    run = run.accept_body(&drifted);
    assert_eq!(run.phase(), Phase::Failed);
    assert!(run.request().is_none());
    match run.finish() {
        Err(DecodeError::SchemaMismatch { index, mismatch }) => {
            assert_eq!(index, 0);
            assert_eq!(mismatch.unmatched, vec!["new_field".to_string()]);
        }
        other => panic!("expected the schema mismatch, got {:?}", other),
    }
}

#[test]
fn nothing_wanted_asks_for_nothing() {
    let client = SearXNGClient::new("http://localhost:8089", ResponseFormat::Json);
    let run = client.search("rust").send_get_num(0);
    assert_eq!(run.phase(), Phase::Complete);
    assert!(run.request().is_none());
    assert_eq!(run.finish().unwrap().len(), 0);
}

#[test]
fn sparse_pages_are_followed_one_by_one() {
    let client = SearXNGClient::new("http://localhost:8089", ResponseFormat::Json);
    let mut run = client.search("rust").send_get_num(3);
    let mut asked = Vec::new();
    let mut page = 0;
    while let Some(request) = run.request() {
        page += 1;
        asked.push(page_of(&request));
        run = run.accept(PageEvent::Results(results(page, 1)));
    }
    assert_eq!(asked, vec!["1", "2", "3"]);
    assert_eq!(run.finish().unwrap().len(), 3);
}

#[test]
fn run_overwrites_the_page_of_the_builder() {
    let client = SearXNGClient::new("http://localhost:8089", ResponseFormat::Json);
    let run = client.search("rust").set_pageno(7).send_get_num(2);
    assert_eq!(run.page(), 1);
    assert_eq!(wanted_page(&run).as_deref(), Some("1"));
}

#[test]
fn outcome_of_decoding_as_event() {
    assert!(matches!(page_event(Err(DecodeError::Syntax)), PageEvent::Failed));
    assert!(matches!(
        page_event(Err(DecodeError::NotAnObject)),
        PageEvent::Mismatch(DecodeError::NotAnObject)
    ));
    match page_event(decode_response(&body(&titles(1, 2)))) {
        PageEvent::Results(list) => assert_eq!(list.len(), 2),
        other => panic!("expected results, got {:?}", other),
    }
}
