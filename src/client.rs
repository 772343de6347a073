//! The client: plans each endpoint's request and turns the reply into a
//! typed result or a classified error. Sending the request is left to the
//! caller's transport; exactly one request is planned per call.
use vstd::prelude::*;
use crate::query::{
    encode_fields, encode_query, encoded, query_view, token_key, QueryParams, QueryView,
    HeadlinesParams, TopStoriesParams, AllNewsParams, SimilarNewsParams, SourcesParams,
};
use crate::document::{parse_document, parsed_document, error_message, Json};
use crate::decode::{
    decode_headlines, decode_top_stories, decode_all_news, decode_similar_news,
    decode_article_by_uuid, decode_sources, headlines_ok, headlines_fits, article_page_ok,
    article_page_fits, article_by_uuid_ok, article_by_uuid_fits, source_page_ok, source_page_fits,
};
use crate::records::{
    HeadlinesResponse, TopStoriesResponse, AllNewsResponse, SimilarNewsResponse,
    ArticleByUuidResponse, SourcesResponse,
};

verus! {

/// The host that every endpoint lives on.
pub open spec fn base_url() -> Seq<char> {
    "https://api.thenewsapi.com"@
}

/// The full URL of an endpoint path.
pub open spec fn endpoint(path: Seq<char>) -> Seq<char> {
    base_url() + path
}

fn endpoint_url(path: &str) -> (r: String)
    ensures
        r@ == endpoint(path@),
{
    String::from_str("https://api.thenewsapi.com").concat(path)
}

/// One GET request: its URL and its query entries.
#[derive(Debug)]
pub struct ApiRequest {
    pub url: String,
    pub query: Vec<(String, String)>,
}

impl ApiRequest {
    pub open spec fn targets(&self, url: Seq<char>, query: QueryView) -> bool {
        self.url@ == url && query_view(self.query@) == query
    }
}

/// What the transport reports for one request.
#[derive(Debug)]
pub enum Reply {
    /// No response arrived (connection, DNS or TLS failure); the cause.
    Unreachable(String),
    /// A response arrived with this status; its body text, or why the body
    /// could not be read.
    Received { status: u16, body: Result<String, String> },
}

/// Why a call failed.
#[derive(Debug)]
pub enum ApiError {
    /// The request did not reach the service, or its reply could not be read.
    Transport(String),
    /// The service answered with a status outside the 2xx range.
    HttpStatus { status: u16, body: String },
    /// The body does not have the expected shape.
    Decode(String),
}

pub open spec fn is_success(status: u16) -> bool {
    200 <= status <= 299
}

/// The text reported for an unreadable error body.
pub open spec fn unreadable_body() -> Seq<char> {
    "Failed to read response text"@
}

pub open spec fn error_body(body: Result<String, String>) -> Seq<char> {
    match body {
        Ok(t) => t@,
        Err(_) => unreadable_body(),
    }
}

/// The document that a reply carries: present when the status is a success,
/// the body could be read, and it parses.
pub open spec fn reply_document(reply: Reply) -> Option<Json> {
    match reply {
        Reply::Received { status, body: Ok(t) } => if is_success(status) {
            parsed_document(t@)
        } else {
            None
        },
        _ => None,
    }
}

/// The error that a reply without a document yields.
pub open spec fn reply_failure(reply: Reply, e: ApiError) -> bool {
    match reply {
        Reply::Unreachable(c) => e == ApiError::Transport(c),
        Reply::Received { status, body } => if !is_success(status) {
            e matches ApiError::HttpStatus { status: s, body: b } && s == status && b@ == error_body(
                body,
            )
        } else {
            match body {
                Err(c) => e == ApiError::Transport(c),
                Ok(_) => e is Decode,
            }
        },
    }
}

/// Classifies a reply: its parsed document on success, else the error.
pub fn reply_body(reply: Reply) -> (r: Result<Json, ApiError>)
    ensures
        match reply_document(reply) {
            Some(doc) => r == Ok::<Json, ApiError>(doc),
            None => r matches Err(e) && reply_failure(reply, e),
        },
{
    match reply {
        Reply::Unreachable(c) => Err(ApiError::Transport(c)),
        Reply::Received { status, body } => {
            if 200 <= status && status <= 299 {
                match body {
                    Ok(t) => match parse_document(t.as_str()) {
                        Ok(doc) => Ok(doc),
                        Err(e) => Err(ApiError::Decode(error_message(&e))),
                    },
                    Err(c) => Err(ApiError::Transport(c)),
                }
            } else {
                let text = match body {
                    Ok(t) => t,
                    Err(_) => String::from_str("Failed to read response text"),
                };
                Err(ApiError::HttpStatus { status, body: text })
            }
        },
    }
}

/// A client bound to one API token.
pub struct Client {
    api_token: String,
}

impl Client {
    /// The token sent with every request.
    pub closed spec fn token(&self) -> Seq<char> {
        self.api_token@
    }

    /// Creates a client that authenticates with `api_token`.
    pub fn new(api_token: &str) -> (r: Client)
        ensures
            r.token() == api_token@,
    {
        Client { api_token: String::from_str(api_token) }
    }

    /// The request for the latest headlines.
    pub fn headlines_request(&self, params: &HeadlinesParams) -> (r: ApiRequest)
        ensures
            r.targets(endpoint("/v1/news/headlines"@), encoded(params.fields(), self.token())),
    {
        ApiRequest {
            url: endpoint_url("/v1/news/headlines"),
            query: encode_query(params, self.api_token.as_str()),
        }
    }

    /// The request for the top stories.
    pub fn top_stories_request(&self, params: &TopStoriesParams) -> (r: ApiRequest)
        ensures
            r.targets(endpoint("/v1/news/top"@), encoded(params.fields(), self.token())),
    {
        ApiRequest {
            url: endpoint_url("/v1/news/top"),
            query: encode_query(params, self.api_token.as_str()),
        }
    }

    /// The request for all news.
    pub fn all_news_request(&self, params: &AllNewsParams) -> (r: ApiRequest)
        ensures
            r.targets(endpoint("/v1/news/all"@), encoded(params.fields(), self.token())),
    {
        ApiRequest {
            url: endpoint_url("/v1/news/all"),
            query: encode_query(params, self.api_token.as_str()),
        }
    }

    /// The request for articles similar to the article `uuid`.
    pub fn similar_news_request(&self, uuid: &str, params: &SimilarNewsParams) -> (r: ApiRequest)
        ensures
            r.targets(
                endpoint("/v1/news/similar/"@ + uuid@),
                encoded(params.fields(), self.token()),
            ),
    {
        let url = endpoint_url("/v1/news/similar/").concat(uuid);
        proof {
            assert(endpoint("/v1/news/similar/"@) + uuid@ =~= endpoint("/v1/news/similar/"@ + uuid@));
        }
        ApiRequest { url, query: encode_query(params, self.api_token.as_str()) }
    }

    /// The request for the article `uuid`; it carries no filter.
    pub fn article_by_uuid_request(&self, uuid: &str) -> (r: ApiRequest)
        ensures
            r.targets(endpoint("/v1/news/uuid/"@ + uuid@), seq![(token_key(), self.token())]),
    {
        let url = endpoint_url("/v1/news/uuid/").concat(uuid);
        proof {
            assert(endpoint("/v1/news/uuid/"@) + uuid@ =~= endpoint("/v1/news/uuid/"@ + uuid@));
        }
        let query = encode_fields(Vec::new(), self.api_token.as_str());
        proof {
            assert(encoded(Seq::empty(), self.token()) =~= seq![(token_key(), self.token())]);
        }
        ApiRequest { url, query }
    }

    /// The request for the sources.
    pub fn sources_request(&self, params: &SourcesParams) -> (r: ApiRequest)
        ensures
            r.targets(endpoint("/v1/sources"@), encoded(params.fields(), self.token())),
    {
        ApiRequest {
            url: endpoint_url("/v1/sources"),
            query: encode_query(params, self.api_token.as_str()),
        }
    }
}

/// Turns the reply to a headlines request into its record, or the error.
pub fn finish_headlines(reply: Reply) -> (r: Result<HeadlinesResponse, ApiError>)
    ensures
        match reply_document(reply) {
            Some(doc) => match r {
                Ok(v) => headlines_ok(doc) && headlines_fits(v, doc),
                Err(e) => !headlines_ok(doc) && e is Decode,
            },
            None => r matches Err(e) && reply_failure(reply, e),
        },
{
    match reply_body(reply) {
        Ok(doc) => match decode_headlines(&doc) {
            Ok(v) => Ok(v),
            Err(m) => Err(ApiError::Decode(m)),
        },
        Err(e) => Err(e),
    }
}

/// Turns the reply to a top stories request into its record, or the error.
pub fn finish_top_stories(reply: Reply) -> (r: Result<TopStoriesResponse, ApiError>)
    ensures
        match reply_document(reply) {
            Some(doc) => match r {
                Ok(v) => article_page_ok(doc) && article_page_fits(v.meta, v.data@, doc),
                Err(e) => !article_page_ok(doc) && e is Decode,
            },
            None => r matches Err(e) && reply_failure(reply, e),
        },
{
    match reply_body(reply) {
        Ok(doc) => match decode_top_stories(&doc) {
            Ok(v) => Ok(v),
            Err(m) => Err(ApiError::Decode(m)),
        },
        Err(e) => Err(e),
    }
}

/// Turns the reply to a all news request into its record, or the error.
pub fn finish_all_news(reply: Reply) -> (r: Result<AllNewsResponse, ApiError>)
    ensures
        match reply_document(reply) {
            Some(doc) => match r {
                Ok(v) => article_page_ok(doc) && article_page_fits(v.meta, v.data@, doc),
                Err(e) => !article_page_ok(doc) && e is Decode,
            },
            None => r matches Err(e) && reply_failure(reply, e),
        },
{
    match reply_body(reply) {
        Ok(doc) => match decode_all_news(&doc) {
            Ok(v) => Ok(v),
            Err(m) => Err(ApiError::Decode(m)),
        },
        Err(e) => Err(e),
    }
}

/// Turns the reply to a similar news request into its record, or the error.
pub fn finish_similar_news(reply: Reply) -> (r: Result<SimilarNewsResponse, ApiError>)
    ensures
        match reply_document(reply) {
            Some(doc) => match r {
                Ok(v) => article_page_ok(doc) && article_page_fits(v.meta, v.data@, doc),
                Err(e) => !article_page_ok(doc) && e is Decode,
            },
            None => r matches Err(e) && reply_failure(reply, e),
        },
{
    match reply_body(reply) {
        Ok(doc) => match decode_similar_news(&doc) {
            Ok(v) => Ok(v),
            Err(m) => Err(ApiError::Decode(m)),
        },
        Err(e) => Err(e),
    }
}

/// Turns the reply to a article lookup request into its record, or the error.
pub fn finish_article_by_uuid(reply: Reply) -> (r: Result<ArticleByUuidResponse, ApiError>)
    ensures
        match reply_document(reply) {
            Some(doc) => match r {
                Ok(v) => article_by_uuid_ok(doc) && article_by_uuid_fits(v, doc),
                Err(e) => !article_by_uuid_ok(doc) && e is Decode,
            },
            None => r matches Err(e) && reply_failure(reply, e),
        },
{
    match reply_body(reply) {
        Ok(doc) => match decode_article_by_uuid(&doc) {
            Ok(v) => Ok(v),
            Err(m) => Err(ApiError::Decode(m)),
        },
        Err(e) => Err(e),
    }
}

/// Turns the reply to a sources request into its record, or the error.
pub fn finish_sources(reply: Reply) -> (r: Result<SourcesResponse, ApiError>)
    ensures
        match reply_document(reply) {
            Some(doc) => match r {
                Ok(v) => source_page_ok(doc) && source_page_fits(v.meta, v.data@, doc),
                Err(e) => !source_page_ok(doc) && e is Decode,
            },
            None => r matches Err(e) && reply_failure(reply, e),
        },
{
    match reply_body(reply) {
        Ok(doc) => match decode_sources(&doc) {
            Ok(v) => Ok(v),
            Err(m) => Err(ApiError::Decode(m)),
        },
        Err(e) => Err(e),
    }
}

} // verus!
