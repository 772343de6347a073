use news_api_client::query::{
    encode_query, render_count, render_flag, AllNewsParams, HeadlinesParams, SimilarNewsParams,
    SourcesParams, TopStoriesParams,
};

fn entry<'a>(q: &'a [(String, String)], key: &str) -> Option<&'a str> {
    q.iter().find(|(k, _)| k == key).map(|(_, v)| v.as_str())
}

fn count_key(q: &[(String, String)], key: &str) -> usize {
    q.iter().filter(|(k, _)| k == key).count()
}

#[test]
fn empty_headlines_encode_to_token_only() {
    let q = encode_query(&HeadlinesParams::default(), "tok");
    assert_eq!(q, vec![("api_token".to_string(), "tok".to_string())]);
}

#[test]
fn empty_records_of_every_kind_encode_to_token_only() {
    assert_eq!(encode_query(&TopStoriesParams::default(), "t").len(), 1);
    assert_eq!(encode_query(&AllNewsParams::default(), "t").len(), 1);
    assert_eq!(encode_query(&SimilarNewsParams::default(), "t").len(), 1);
    assert_eq!(encode_query(&SourcesParams::default(), "t").len(), 1);
}

#[test]
fn present_fields_are_encoded_in_order_with_token_last() {
    let mut p = HeadlinesParams::default();
    p.locale = Some("us");
    p.language = Some("en");
    p.headlines_per_category = Some(5);
    p.include_similar = Some(false);
    let q = encode_query(&p, "secret");
    let expected: Vec<(String, String)> = vec![
        ("locale".to_string(), "us".to_string()),
        ("language".to_string(), "en".to_string()),
        ("headlines_per_category".to_string(), "5".to_string()),
        ("include_similar".to_string(), "false".to_string()),
        ("api_token".to_string(), "secret".to_string()),
    ];
    assert_eq!(q, expected);
}

#[test]
fn token_appears_once_and_absent_fields_leave_no_trace() {
    let mut p = TopStoriesParams::default();
    p.search = Some("rust");
    p.limit = Some(3);
    let q = encode_query(&p, "abc");
    assert_eq!(q.len(), 3);
    assert_eq!(count_key(&q, "api_token"), 1);
    assert_eq!(entry(&q, "api_token"), Some("abc"));
    assert_eq!(entry(&q, "page"), None);
    assert_eq!(entry(&q, "sort"), None);
    assert!(q.iter().all(|(_, v)| v != "null"));
}

#[test]
fn date_fields_pass_through_verbatim() {
    let mut p = AllNewsParams::default();
    p.published_on = Some("2024-01-01");
    p.published_before = Some("2024-01-01");
    p.published_after = Some("2024-01-01");
    let q = encode_query(&p, "k");
    assert_eq!(entry(&q, "published_on"), Some("2024-01-01"));
    assert_eq!(entry(&q, "published_before"), Some("2024-01-01"));
    assert_eq!(entry(&q, "published_after"), Some("2024-01-01"));

    let mut s = SimilarNewsParams::default();
    s.published_on = Some("2024-01-01");
    let q = encode_query(&s, "k");
    assert_eq!(entry(&q, "published_on"), Some("2024-01-01"));

    let mut h = HeadlinesParams::default();
    h.published_on = Some("2024-01-01");
    let q = encode_query(&h, "k");
    assert_eq!(entry(&q, "published_on"), Some("2024-01-01"));
}

#[test]
fn counts_render_in_base_ten() {
    assert_eq!(render_count(0), "0");
    assert_eq!(render_count(7), "7");
    assert_eq!(render_count(10), "10");
    assert_eq!(render_count(120), "120");
    assert_eq!(render_count(1234567890), "1234567890");
    assert_eq!(render_count(usize::MAX), usize::MAX.to_string());
}

#[test]
fn flags_render_as_words() {
    assert_eq!(render_flag(true), "true");
    assert_eq!(render_flag(false), "false");
}

#[test]
fn sources_params_encode_page_and_filters() {
    let mut p = SourcesParams::default();
    p.categories = Some("tech,business");
    p.page = Some(2);
    let q = encode_query(&p, "z");
    let expected: Vec<(String, String)> = vec![
        ("categories".to_string(), "tech,business".to_string()),
        ("page".to_string(), "2".to_string()),
        ("api_token".to_string(), "z".to_string()),
    ];
    assert_eq!(q, expected);
}
