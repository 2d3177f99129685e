use searxng_client::client::{Method, Request, SearchBuilder, SearchParams};
use searxng_client::language::LanguageTag;
use searxng_client::text::{decimal_text, join_commas, split_commas, strip_trailing_slashes};
use searxng_client::{ResponseFormat, SearXNGClient};

fn fields(request: &Request) -> Vec<(String, String)> {
    request.form.iter().map(|f| (f.name.clone(), f.value.clone())).collect()
}

fn pair(name: &str, value: &str) -> (String, String) {
    (name.to_string(), value.to_string())
}

fn texts(items: &[&str]) -> Vec<String> {
    items.iter().map(|s| s.to_string()).collect()
}

#[test]
fn test_search() {
    let client = SearXNGClient::new("http://localhost:8089/", ResponseFormat::Json);
    let request = client.search("rust programming").send();
    assert_eq!(request.method, Method::Post);
    assert_eq!(request.url, "http://localhost:8089/search");
    assert_eq!(request.user_agent, "searxng-rust-client/0.1");
    assert_eq!(fields(&request), vec![pair("q", "rust programming"), pair("format", "json")]);
    let run = client.search("rust programming").send_get_num(10);
    let first = run.request().expect("ten results are wanted");
    assert_eq!(
        fields(&first),
        vec![pair("q", "rust programming"), pair("format", "json"), pair("pageno", "1")]
    );
}

#[test]
fn base_url_loses_its_trailing_slashes() {
    for (base, url) in [
        ("https://searx.be", "https://searx.be/search"),
        ("https://searx.be/", "https://searx.be/search"),
        ("https://searx.be///", "https://searx.be/search"),
        ("https://searx.be/sub/", "https://searx.be/sub/search"),
        ("https://searx.be/a//b", "https://searx.be/a//b/search"),
        ("", "/search"),
        ("/", "/search"),
        ("////", "/search"),
        ("https://sözcük.example/", "https://sözcük.example/search"),
    ] {
        let client = SearXNGClient::new(base, ResponseFormat::Json);
        assert_eq!(client.url(), url);
        assert_eq!(client.response_format(), ResponseFormat::Json);
    }
}

#[test]
fn trailing_slashes_only() {
    assert_eq!(strip_trailing_slashes("/a/b/"), "/a/b");
    assert_eq!(strip_trailing_slashes("a"), "a");
    assert_eq!(strip_trailing_slashes("//"), "");
    assert_eq!(strip_trailing_slashes(""), "");
    assert_eq!(strip_trailing_slashes("é/"), "é");
}

#[test]
fn page_is_set_and_overwritten() {
    let client = SearXNGClient::new("https://searx.be", ResponseFormat::Json);
    let request = client.search("q").set_pageno(3).send();
    assert_eq!(fields(&request), vec![pair("q", "q"), pair("format", "json"), pair("pageno", "3")]);
    let request = client.search("q").set_pageno(3).set_pageno(0).send();
    assert_eq!(fields(&request), vec![pair("q", "q"), pair("format", "json"), pair("pageno", "0")]);
    let builder = client.search("q").set_pageno(18446744073709551615);
    assert_eq!(builder.parameters().pageno, Some(u64::MAX));
    assert_eq!(builder.send().form[2].value, "18446744073709551615");
}

#[test]
fn all_parameters_in_their_order() {
    let client = SearXNGClient::new("https://searx.be", ResponseFormat::Json);
    let params = SearchParams {
        q: "rust & verus".to_string(),
        format: ResponseFormat::Json,
        pageno: Some(2),
        categories: Some(texts(&["general", "it"])),
        engines: Some(texts(&["duckduckgo"])),
        language: LanguageTag::parse("en-us"),
        results_on_new_tab: Some(1),
        image_proxy: Some(true),
        autocomplete: Some("google".to_string()),
        safesearch: Some(2),
        theme: Some("simple".to_string()),
    };
    assert!(params.language.is_some());
    let request = client.search("replaced").set_params(params).send();
    assert_eq!(
        fields(&request),
        vec![
            pair("q", "rust & verus"),
            pair("format", "json"),
            pair("pageno", "2"),
            pair("categories", "general,it"),
            pair("engines", "duckduckgo"),
            pair("language", "en-US"),
            pair("results_on_new_tab", "1"),
            pair("image_proxy", "true"),
            pair("autocomplete", "google"),
            pair("safesearch", "2"),
            pair("theme", "simple"),
        ]
    );
}

#[test]
fn parameters_left_out_or_empty_are_not_written() {
    let mut params = SearchParams::new("q", ResponseFormat::Json);
    assert_eq!(params.q, "q");
    assert_eq!(params.pageno, None);
    assert!(params.categories.is_none() && params.engines.is_none() && params.language.is_none());
    assert!(params.results_on_new_tab.is_none() && params.image_proxy.is_none());
    assert!(params.autocomplete.is_none() && params.safesearch.is_none() && params.theme.is_none());
    params.categories = Some(vec![]);
    params.engines = Some(texts(&["a", "b", "c"]));
    params.image_proxy = Some(false);
    params.safesearch = Some(0);
    let form: Vec<(String, String)> =
        params.form().iter().map(|f| (f.name.clone(), f.value.clone())).collect();
    assert_eq!(
        form,
        vec![
            pair("q", "q"),
            pair("format", "json"),
            pair("engines", "a,b,c"),
            pair("image_proxy", "false"),
            pair("safesearch", "0"),
        ]
    );
}

#[test]
fn builder_starts_blank() {
    let client = SearXNGClient::new("https://searx.be", ResponseFormat::Json);
    let builder = SearchBuilder::new(&client, "cats");
    assert_eq!(builder.parameters().q, "cats");
    assert_eq!(builder.parameters().format, ResponseFormat::Json);
    assert_eq!(builder.parameters().pageno, None);
    assert_eq!(fields(&builder.send()), vec![pair("q", "cats"), pair("format", "json")]);
}

#[test]
fn categories_survive_the_wire() {
    let categories = texts(&["general", "it", "science"]);
    let wire = join_commas(&categories);
    assert_eq!(wire, "general,it,science");
    assert_eq!(split_commas(&wire), categories);
    let single = texts(&["images"]);
    assert_eq!(join_commas(&single), "images");
    assert_eq!(split_commas("images"), single);
    let with_gaps = texts(&["", "a", "", ""]);
    assert_eq!(join_commas(&with_gaps), ",a,,");
    assert_eq!(split_commas(",a,,"), with_gaps);
    let wide = texts(&["größe", "日本語"]);
    assert_eq!(split_commas(&join_commas(&wide)), wide);
}

#[test]
fn categories_that_do_not_survive_the_wire() {
    // an item with a comma comes back as two
    assert_eq!(join_commas(&texts(&["a,b"])), "a,b");
    assert_eq!(split_commas("a,b"), texts(&["a", "b"]));
    // the one empty text is written like the empty list
    assert_eq!(join_commas(&texts(&[""])), "");
    assert_eq!(join_commas(&Vec::new()), "");
    assert_eq!(split_commas(""), Vec::<String>::new());
}

#[test]
fn numbers_in_decimal() {
    assert_eq!(decimal_text(0), "0");
    assert_eq!(decimal_text(7), "7");
    assert_eq!(decimal_text(10), "10");
    assert_eq!(decimal_text(109), "109");
    assert_eq!(decimal_text(4294967295), "4294967295");
    assert_eq!(decimal_text(u64::MAX), "18446744073709551615");
}

#[test]
fn format_on_the_wire() {
    assert_eq!(ResponseFormat::Json.name(), "json");
}
