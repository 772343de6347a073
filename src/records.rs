//! Records that the service's responses hold.
use vstd::prelude::*;

verus! {

/// An article.
#[derive(Debug)]
pub struct Article {
    /// The unique identifier of the article.
    pub uuid: String,
    /// The article title.
    pub title: String,
    /// The article meta description.
    pub description: String,
    /// The article meta keywords.
    pub keywords: Option<String>,
    /// The first characters of the article body.
    pub snippet: String,
    /// The URL of the article.
    pub url: String,
    /// The URL of the article image.
    pub image_url: Option<String>,
    /// The language of the source.
    pub language: String,
    /// When the article was published, as the service wrote it.
    pub published_at: String,
    /// The domain of the source.
    pub source: String,
    /// The categories of the source.
    pub categories: Vec<String>,
    /// The locale of the source.
    pub locale: Option<String>,
    /// Articles similar to this one.
    pub similar: Option<Vec<SimilarArticle>>,
}

/// An article listed as similar to another.
#[derive(Debug)]
pub struct SimilarArticle {
    /// The unique identifier of the article.
    pub uuid: String,
    /// The article title.
    pub title: String,
    /// The article meta description.
    pub description: String,
    /// The article meta keywords.
    pub keywords: Option<String>,
    /// The first characters of the article body.
    pub snippet: String,
    /// The URL of the article.
    pub url: String,
    /// The URL of the article image.
    pub image_url: Option<String>,
    /// The language of the source.
    pub language: String,
    /// When the article was published, as the service wrote it.
    pub published_at: String,
    /// The domain of the source.
    pub source: String,
    /// The categories of the source.
    pub categories: Vec<String>,
    /// The locale of the source.
    pub locale: Option<String>,
}

/// Pagination bookkeeping of a list response.
#[derive(Debug)]
pub struct Meta {
    /// The number of items found.
    pub found: usize,
    /// The number of items returned on the page.
    pub returned: usize,
    /// The page size that was applied.
    pub limit: usize,
    /// The page number that was applied.
    pub page: usize,
}

/// A single article looked up by its identifier.
#[derive(Debug)]
pub struct ArticleByUuidResponse {
    /// The unique identifier of the article.
    pub uuid: String,
    /// The article title.
    pub title: String,
    /// The article meta description.
    pub description: String,
    /// The article meta keywords.
    pub keywords: Option<String>,
    /// The first characters of the article body.
    pub snippet: String,
    /// The URL of the article.
    pub url: String,
    /// The URL of the article image.
    pub image_url: Option<String>,
    /// The language of the source.
    pub language: String,
    /// When the article was published, as the service wrote it.
    pub published_at: String,
    /// The domain of the source.
    pub source: String,
    /// The categories of the source.
    pub categories: Vec<String>,
}

/// A news source.
#[derive(Debug)]
pub struct Source {
    /// The identifier of the source feed.
    pub source_id: String,
    /// The domain of the source.
    pub domain: String,
    /// The language of the source.
    pub language: String,
    /// The locale of the source.
    pub locale: Option<String>,
    /// The categories of the source.
    pub categories: Vec<String>,
}

/// Headlines grouped by category label, in the document's key order.
#[derive(Debug)]
pub struct HeadlinesResponse {
    /// Each category label with its articles.
    pub data: Vec<(String, Vec<Article>)>,
}

/// A page of top stories.
#[derive(Debug)]
pub struct TopStoriesResponse {
    /// Pagination bookkeeping.
    pub meta: Meta,
    /// The items of the page.
    pub data: Vec<Article>,
}

/// A page of all news articles.
#[derive(Debug)]
pub struct AllNewsResponse {
    /// Pagination bookkeeping.
    pub meta: Meta,
    /// The items of the page.
    pub data: Vec<Article>,
}

/// A page of similar articles.
#[derive(Debug)]
pub struct SimilarNewsResponse {
    /// Pagination bookkeeping.
    pub meta: Meta,
    /// The items of the page.
    pub data: Vec<Article>,
}

/// A page of sources.
#[derive(Debug)]
pub struct SourcesResponse {
    /// Pagination bookkeeping.
    pub meta: Meta,
    /// The items of the page.
    pub data: Vec<Source>,
}

} // verus!
