use news_api_client::client::{
    finish_all_news, finish_article_by_uuid, finish_headlines, finish_similar_news,
    finish_sources, finish_top_stories, reply_body, ApiError, Client, Reply,
};
use news_api_client::decode::{decode_meta, decode_source};
use news_api_client::document::Json;
use news_api_client::query::{
    AllNewsParams, HeadlinesParams, SimilarNewsParams, SourcesParams, TopStoriesParams,
};

fn ok_reply(status: u16, body: &str) -> Reply {
    Reply::Received { status, body: Ok(body.to_string()) }
}

const ARTICLE: &str = r#"{"uuid":"a1","title":"Title","description":"Desc","keywords":null,
"snippet":"Snip","url":"https://x.test/a1","image_url":"https://x.test/a1.png","language":"en",
"published_at":"2024-01-01T00:00:00.000000Z","source":"x.test","categories":["tech","general"],
"locale":"us"}"#;

fn page(data: &str) -> String {
    format!(r#"{{"meta":{{"found":10,"returned":1,"limit":1,"page":2}},"data":[{}]}}"#, data)
}

#[test]
fn paginated_success_is_decoded_field_for_field() {
    let r = finish_top_stories(ok_reply(200, &page(ARTICLE))).unwrap();
    assert_eq!(r.meta.found, 10);
    assert_eq!(r.meta.returned, 1);
    assert_eq!(r.meta.limit, 1);
    assert_eq!(r.meta.page, 2);
    assert_eq!(r.data.len(), 1);
    let a = &r.data[0];
    assert_eq!(a.uuid, "a1");
    assert_eq!(a.title, "Title");
    assert_eq!(a.description, "Desc");
    assert_eq!(a.keywords, None);
    assert_eq!(a.snippet, "Snip");
    assert_eq!(a.url, "https://x.test/a1");
    assert_eq!(a.image_url.as_deref(), Some("https://x.test/a1.png"));
    assert_eq!(a.language, "en");
    assert_eq!(a.published_at, "2024-01-01T00:00:00.000000Z");
    assert_eq!(a.source, "x.test");
    assert_eq!(a.categories, vec!["tech".to_string(), "general".to_string()]);
    assert_eq!(a.locale.as_deref(), Some("us"));
    assert!(a.similar.is_none());
}

#[test]
fn all_news_and_similar_news_share_the_page_shape() {
    let r = finish_all_news(ok_reply(201, &page(ARTICLE))).unwrap();
    assert_eq!(r.data[0].uuid, "a1");
    let r = finish_similar_news(ok_reply(299, &page(ARTICLE))).unwrap();
    assert_eq!(r.meta.page, 2);
}

#[test]
fn nested_similar_articles_are_decoded() {
    let with_similar = ARTICLE.replace(
        r#""locale":"us"}"#,
        &format!(r#""locale":"us","similar":[{}]}}"#, ARTICLE.replace("a1", "b2")),
    );
    let r = finish_top_stories(ok_reply(200, &page(&with_similar))).unwrap();
    let similar = r.data[0].similar.as_ref().unwrap();
    assert_eq!(similar.len(), 1);
    assert_eq!(similar[0].uuid, "b2");
}

#[test]
fn status_429_becomes_http_status_error() {
    match finish_top_stories(ok_reply(429, "rate limited")) {
        Err(ApiError::HttpStatus { status, body }) => {
            assert_eq!(status, 429);
            assert_eq!(body, "rate limited");
        }
        other => panic!("unexpected {:?}", other),
    }
}

#[test]
fn unreadable_error_body_uses_placeholder() {
    let reply = Reply::Received { status: 500, body: Err("stream closed".to_string()) };
    match finish_sources(reply) {
        Err(ApiError::HttpStatus { status, body }) => {
            assert_eq!(status, 500);
            assert_eq!(body, "Failed to read response text");
        }
        other => panic!("unexpected {:?}", other),
    }
}

#[test]
fn status_199_and_300_are_not_success() {
    assert!(matches!(
        finish_top_stories(ok_reply(199, &page(ARTICLE))),
        Err(ApiError::HttpStatus { status: 199, .. })
    ));
    assert!(matches!(
        finish_top_stories(ok_reply(300, &page(ARTICLE))),
        Err(ApiError::HttpStatus { status: 300, .. })
    ));
}

#[test]
fn missing_required_field_is_a_decode_error() {
    let no_title = ARTICLE.replace(r#""title":"Title","#, "");
    assert!(matches!(
        finish_top_stories(ok_reply(200, &page(&no_title))),
        Err(ApiError::Decode(_))
    ));
    let no_meta = format!(r#"{{"data":[{}]}}"#, ARTICLE);
    assert!(matches!(finish_top_stories(ok_reply(200, &no_meta)), Err(ApiError::Decode(_))));
}

#[test]
fn malformed_body_is_a_decode_error() {
    assert!(matches!(finish_top_stories(ok_reply(200, "{not json")), Err(ApiError::Decode(_))));
    assert!(matches!(reply_body(ok_reply(200, "")), Err(ApiError::Decode(_))));
}

#[test]
fn transport_failure_is_reported_once() {
    let reply = Reply::Unreachable("connection reset".to_string());
    match finish_top_stories(reply) {
        Err(ApiError::Transport(cause)) => assert_eq!(cause, "connection reset"),
        other => panic!("unexpected {:?}", other),
    }
}

#[test]
fn unreadable_success_body_is_a_transport_error() {
    let reply = Reply::Received { status: 200, body: Err("body timeout".to_string()) };
    match finish_headlines(reply) {
        Err(ApiError::Transport(cause)) => assert_eq!(cause, "body timeout"),
        other => panic!("unexpected {:?}", other),
    }
}

#[test]
fn headlines_are_grouped_by_category() {
    let body = format!(r#"{{"data":{{"general":[{}],"tech":[]}}}}"#, ARTICLE);
    let r = finish_headlines(ok_reply(200, &body)).unwrap();
    assert_eq!(r.data.len(), 2);
    assert_eq!(r.data[0].0, "general");
    assert_eq!(r.data[0].1[0].uuid, "a1");
    assert_eq!(r.data[1].0, "tech");
    assert!(r.data[1].1.is_empty());
}

#[test]
fn article_by_uuid_decodes_single_record() {
    let r = finish_article_by_uuid(ok_reply(200, ARTICLE)).unwrap();
    assert_eq!(r.uuid, "a1");
    assert_eq!(r.categories.len(), 2);
    assert!(matches!(finish_article_by_uuid(ok_reply(200, "[]")), Err(ApiError::Decode(_))));
}

#[test]
fn sources_are_decoded() {
    let body = r#"{"meta":{"found":1,"returned":1,"limit":50,"page":1},
        "data":[{"source_id":"x-1","domain":"x.test","language":"en","locale":null,"categories":[]}]}"#;
    let r = finish_sources(ok_reply(200, body)).unwrap();
    assert_eq!(r.meta.limit, 50);
    assert_eq!(r.data[0].source_id, "x-1");
    assert_eq!(r.data[0].locale, None);
}

#[test]
fn meta_rejects_negative_and_fractional_counts() {
    let mk = |found: Json| {
        Json::Object(vec![
            ("found".to_string(), found),
            ("returned".to_string(), Json::Unsigned(1)),
            ("limit".to_string(), Json::Unsigned(1)),
            ("page".to_string(), Json::Unsigned(1)),
        ])
    };
    assert_eq!(decode_meta(&mk(Json::Unsigned(7))).unwrap().found, 7);
    assert!(decode_meta(&mk(Json::OtherNumber)).is_err());
    assert!(decode_meta(&mk(Json::Str("7".to_string()))).is_err());
}

#[test]
fn source_rejects_mistyped_list() {
    let j = Json::Object(vec![
        ("source_id".to_string(), Json::Str("s".to_string())),
        ("domain".to_string(), Json::Str("d".to_string())),
        ("language".to_string(), Json::Str("en".to_string())),
        ("categories".to_string(), Json::Array(vec![Json::Unsigned(1)])),
    ]);
    assert!(decode_source(&j).is_err());
}

#[test]
fn article_lookup_request_targets_uuid_path_with_token_only() {
    let c = Client::new("tok");
    let r = c.article_by_uuid_request("abc-123");
    assert_eq!(r.url, "https://api.thenewsapi.com/v1/news/uuid/abc-123");
    assert_eq!(r.query, vec![("api_token".to_string(), "tok".to_string())]);
}

#[test]
fn endpoint_requests_carry_their_paths() {
    let c = Client::new("tok");
    assert_eq!(
        c.headlines_request(&HeadlinesParams::default()).url,
        "https://api.thenewsapi.com/v1/news/headlines"
    );
    let mut p = TopStoriesParams::default();
    p.page = Some(3);
    let r = c.top_stories_request(&p);
    assert_eq!(r.url, "https://api.thenewsapi.com/v1/news/top");
    assert_eq!(
        r.query,
        vec![("page".to_string(), "3".to_string()), ("api_token".to_string(), "tok".to_string())]
    );
    let r = c.similar_news_request("u9", &SimilarNewsParams::default());
    assert_eq!(r.url, "https://api.thenewsapi.com/v1/news/similar/u9");
}

#[test]
fn all_news_and_sources_requests_carry_their_paths() {
    let c = Client::new("tok");
    let mut p = AllNewsParams::default();
    p.search = Some("election");
    p.published_after = Some("2024-01-01");
    let r = c.all_news_request(&p);
    assert_eq!(r.url, "https://api.thenewsapi.com/v1/news/all");
    assert_eq!(
        r.query,
        vec![
            ("search".to_string(), "election".to_string()),
            ("published_after".to_string(), "2024-01-01".to_string()),
            ("api_token".to_string(), "tok".to_string()),
        ]
    );
    let r = c.sources_request(&SourcesParams::default());
    assert_eq!(r.url, "https://api.thenewsapi.com/v1/sources");
    assert_eq!(r.query, vec![("api_token".to_string(), "tok".to_string())]);
}
