//! Decoding of response records from a parsed document.
//!
//! A record is an object; a required text field must be a string, an optional
//! one may be missing, null or a string, a list field must be an array of
//! strings, and a count must be an unsigned integer that fits a `usize`.
//! Members that no field names are ignored.
use vstd::prelude::*;
use crate::document::Json;
use crate::records::{
    Article, SimilarArticle, Meta, ArticleByUuidResponse, Source, HeadlinesResponse,
    TopStoriesResponse, AllNewsResponse, SimilarNewsResponse, SourcesResponse,
};

verus! {

pub type Members = Seq<(String, Json)>;

/// The value of the first member named `key`.
pub open spec fn lookup(o: Members, key: Seq<char>) -> Option<Json>
    decreases o.len(),
{
    if o.len() == 0 {
        None
    } else if o[0].0@ == key {
        Some(o[0].1)
    } else {
        lookup(o.drop_first(), key)
    }
}

pub open spec fn text_at(o: Members, key: Seq<char>) -> Option<String> {
    match lookup(o, key) {
        Some(Json::Str(s)) => Some(s),
        _ => None,
    }
}

pub open spec fn opt_text_ok(o: Members, key: Seq<char>) -> bool {
    match lookup(o, key) {
        None => true,
        Some(Json::Null) => true,
        Some(Json::Str(_)) => true,
        _ => false,
    }
}

pub open spec fn opt_text_at(o: Members, key: Seq<char>) -> Option<String> {
    match lookup(o, key) {
        Some(Json::Str(s)) => Some(s),
        _ => None,
    }
}

pub open spec fn list_ok(o: Members, key: Seq<char>) -> bool {
    match lookup(o, key) {
        Some(Json::Array(items)) => forall|i: int| 0 <= i < items@.len() ==> (#[trigger] items@[i]) is Str,
        _ => false,
    }
}

pub open spec fn list_fits(v: Seq<String>, o: Members, key: Seq<char>) -> bool {
    match lookup(o, key) {
        Some(Json::Array(items)) => v.len() == items@.len() && forall|i: int|
            0 <= i < v.len() ==> items@[i] == Json::Str(#[trigger] v[i]),
        _ => false,
    }
}

pub open spec fn count_at(o: Members, key: Seq<char>) -> Option<usize> {
    match lookup(o, key) {
        Some(Json::Unsigned(n)) => if n <= usize::MAX {
            Some(n as usize)
        } else {
            None
        },
        _ => None,
    }
}

fn field_error(what: &str, key: &str) -> String {
    String::from_str(what).concat(key)
}

fn find(o: &Vec<(String, Json)>, key: &str) -> (r: Option<usize>)
    ensures
        match r {
            Some(i) => i < o@.len() && lookup(o@, key@) == Some(o@[i as int].1),
            None => lookup(o@, key@) is None,
        },
{
    let k = String::from_str(key);
    let mut i: usize = 0;
    assert(o@.skip(0) =~= o@);
    while i < o.len()
        invariant
            i <= o@.len(),
            k@ == key@,
            lookup(o@, key@) == lookup(o@.skip(i as int), key@),
        decreases o@.len() - i,
    {
        assert(o@.skip(i as int)[0] == o@[i as int]);
        if o[i].0 == k {
            return Some(i);
        }
        assert(o@.skip(i as int).drop_first() =~= o@.skip(i as int + 1));
        i = i + 1;
    }
    None
}

fn req_text(o: &Vec<(String, Json)>, key: &str) -> (r: Result<String, String>)
    ensures
        r is Ok <==> text_at(o@, key@) is Some,
        r matches Ok(s) ==> text_at(o@, key@) == Some(s),
{
    match find(o, key) {
        Some(i) => match &o[i].1 {
            Json::Str(s) => Ok(s.clone()),
            _ => Err(field_error("invalid type for field ", key)),
        },
        None => Err(field_error("missing field ", key)),
    }
}

fn opt_text(o: &Vec<(String, Json)>, key: &str) -> (r: Result<Option<String>, String>)
    ensures
        r is Ok <==> opt_text_ok(o@, key@),
        r matches Ok(v) ==> v == opt_text_at(o@, key@),
{
    match find(o, key) {
        Some(i) => match &o[i].1 {
            Json::Str(s) => Ok(Some(s.clone())),
            Json::Null => Ok(None),
            _ => Err(field_error("invalid type for field ", key)),
        },
        None => Ok(None),
    }
}

fn text_list(o: &Vec<(String, Json)>, key: &str) -> (r: Result<Vec<String>, String>)
    ensures
        r is Ok <==> list_ok(o@, key@),
        r matches Ok(v) ==> list_fits(v@, o@, key@),
{
    match find(o, key) {
        Some(i) => match &o[i].1 {
            Json::Array(items) => {
                let mut out: Vec<String> = Vec::new();
                let mut k: usize = 0;
                while k < items.len()
                    invariant
                        lookup(o@, key@) == Some(Json::Array(*items)),
                        k <= items@.len(),
                        out@.len() == k,
                        forall|m: int| 0 <= m < k ==> items@[m] == Json::Str(#[trigger] out@[m]),
                    decreases items@.len() - k,
                {
                    match &items[k] {
                        Json::Str(s) => out.push(s.clone()),
                        _ => {
                            assert(!(items@[k as int] is Str));
                            return Err(field_error("invalid list item in field ", key));
                        },
                    }
                    k = k + 1;
                }
                assert forall|m: int| 0 <= m < items@.len() implies (#[trigger] items@[m]) is Str by {
                    assert(items@[m] == Json::Str(out@[m]));
                }
                Ok(out)
            },
            _ => Err(field_error("invalid type for field ", key)),
        },
        None => Err(field_error("missing field ", key)),
    }
}

fn req_count(o: &Vec<(String, Json)>, key: &str) -> (r: Result<usize, String>)
    ensures
        r is Ok <==> count_at(o@, key@) is Some,
        r matches Ok(n) ==> count_at(o@, key@) == Some(n),
{
    match find(o, key) {
        Some(i) => match &o[i].1 {
            Json::Unsigned(n) => {
                if *n <= usize::MAX as u64 {
                    Ok(*n as usize)
                } else {
                    Err(field_error("number out of range for field ", key))
                }
            },
            _ => Err(field_error("invalid type for field ", key)),
        },
        None => Err(field_error("missing field ", key)),
    }
}

/// Whether a document holds a article record.
pub open spec fn article_ok(j: Json) -> bool {
    match j {
        Json::Object(o) => {
            &&& text_at(o@, "uuid"@) is Some
            &&& text_at(o@, "title"@) is Some
            &&& text_at(o@, "description"@) is Some
            &&& opt_text_ok(o@, "keywords"@)
            &&& text_at(o@, "snippet"@) is Some
            &&& text_at(o@, "url"@) is Some
            &&& opt_text_ok(o@, "image_url"@)
            &&& text_at(o@, "language"@) is Some
            &&& text_at(o@, "published_at"@) is Some
            &&& text_at(o@, "source"@) is Some
            &&& list_ok(o@, "categories"@)
            &&& opt_text_ok(o@, "locale"@)
            &&& similar_ok(o@, "similar"@)
        },
        _ => false,
    }
}

/// Whether a record holds, field for field, what a document gives.
pub open spec fn article_fits(r: Article, j: Json) -> bool {
    match j {
        Json::Object(o) => {
            &&& text_at(o@, "uuid"@) == Some(r.uuid)
            &&& text_at(o@, "title"@) == Some(r.title)
            &&& text_at(o@, "description"@) == Some(r.description)
            &&& r.keywords == opt_text_at(o@, "keywords"@)
            &&& text_at(o@, "snippet"@) == Some(r.snippet)
            &&& text_at(o@, "url"@) == Some(r.url)
            &&& r.image_url == opt_text_at(o@, "image_url"@)
            &&& text_at(o@, "language"@) == Some(r.language)
            &&& text_at(o@, "published_at"@) == Some(r.published_at)
            &&& text_at(o@, "source"@) == Some(r.source)
            &&& list_fits(r.categories@, o@, "categories"@)
            &&& r.locale == opt_text_at(o@, "locale"@)
            &&& similar_fits(r.similar, o@, "similar"@)
        },
        _ => false,
    }
}

/// Decodes a article record; fails when a field is missing or mistyped.
pub fn decode_article(j: &Json) -> (r: Result<Article, String>)
    ensures
        r is Ok <==> article_ok(*j),
        r matches Ok(v) ==> article_fits(v, *j),
{
    match j {
        Json::Object(o) => {
            let uuid = match req_text(o, "uuid") {
                Ok(v) => v,
                Err(e) => return Err(e),
            };
            let title = match req_text(o, "title") {
                Ok(v) => v,
                Err(e) => return Err(e),
            };
            let description = match req_text(o, "description") {
                Ok(v) => v,
                Err(e) => return Err(e),
            };
            let keywords = match opt_text(o, "keywords") {
                Ok(v) => v,
                Err(e) => return Err(e),
            };
            let snippet = match req_text(o, "snippet") {
                Ok(v) => v,
                Err(e) => return Err(e),
            };
            let url = match req_text(o, "url") {
                Ok(v) => v,
                Err(e) => return Err(e),
            };
            let image_url = match opt_text(o, "image_url") {
                Ok(v) => v,
                Err(e) => return Err(e),
            };
            let language = match req_text(o, "language") {
                Ok(v) => v,
                Err(e) => return Err(e),
            };
            let published_at = match req_text(o, "published_at") {
                Ok(v) => v,
                Err(e) => return Err(e),
            };
            let source = match req_text(o, "source") {
                Ok(v) => v,
                Err(e) => return Err(e),
            };
            let categories = match text_list(o, "categories") {
                Ok(v) => v,
                Err(e) => return Err(e),
            };
            let locale = match opt_text(o, "locale") {
                Ok(v) => v,
                Err(e) => return Err(e),
            };
            let similar = match similar_list(o, "similar") {
                Ok(v) => v,
                Err(e) => return Err(e),
            };
            Ok(Article { uuid, title, description, keywords, snippet, url, image_url, language, published_at, source, categories, locale, similar })
        },
        _ => Err(String::from_str("expected an object")),
    }
}

/// Whether a document holds a similar article record.
pub open spec fn similar_article_ok(j: Json) -> bool {
    match j {
        Json::Object(o) => {
            &&& text_at(o@, "uuid"@) is Some
            &&& text_at(o@, "title"@) is Some
            &&& text_at(o@, "description"@) is Some
            &&& opt_text_ok(o@, "keywords"@)
            &&& text_at(o@, "snippet"@) is Some
            &&& text_at(o@, "url"@) is Some
            &&& opt_text_ok(o@, "image_url"@)
            &&& text_at(o@, "language"@) is Some
            &&& text_at(o@, "published_at"@) is Some
            &&& text_at(o@, "source"@) is Some
            &&& list_ok(o@, "categories"@)
            &&& opt_text_ok(o@, "locale"@)
        },
        _ => false,
    }
}

/// Whether a record holds, field for field, what a document gives.
pub open spec fn similar_article_fits(r: SimilarArticle, j: Json) -> bool {
    match j {
        Json::Object(o) => {
            &&& text_at(o@, "uuid"@) == Some(r.uuid)
            &&& text_at(o@, "title"@) == Some(r.title)
            &&& text_at(o@, "description"@) == Some(r.description)
            &&& r.keywords == opt_text_at(o@, "keywords"@)
            &&& text_at(o@, "snippet"@) == Some(r.snippet)
            &&& text_at(o@, "url"@) == Some(r.url)
            &&& r.image_url == opt_text_at(o@, "image_url"@)
            &&& text_at(o@, "language"@) == Some(r.language)
            &&& text_at(o@, "published_at"@) == Some(r.published_at)
            &&& text_at(o@, "source"@) == Some(r.source)
            &&& list_fits(r.categories@, o@, "categories"@)
            &&& r.locale == opt_text_at(o@, "locale"@)
        },
        _ => false,
    }
}

/// Decodes a similar article record; fails when a field is missing or mistyped.
pub fn decode_similar_article(j: &Json) -> (r: Result<SimilarArticle, String>)
    ensures
        r is Ok <==> similar_article_ok(*j),
        r matches Ok(v) ==> similar_article_fits(v, *j),
{
    match j {
        Json::Object(o) => {
            let uuid = match req_text(o, "uuid") {
                Ok(v) => v,
                Err(e) => return Err(e),
            };
            let title = match req_text(o, "title") {
                Ok(v) => v,
                Err(e) => return Err(e),
            };
            let description = match req_text(o, "description") {
                Ok(v) => v,
                Err(e) => return Err(e),
            };
            let keywords = match opt_text(o, "keywords") {
                Ok(v) => v,
                Err(e) => return Err(e),
            };
            let snippet = match req_text(o, "snippet") {
                Ok(v) => v,
                Err(e) => return Err(e),
            };
            let url = match req_text(o, "url") {
                Ok(v) => v,
                Err(e) => return Err(e),
            };
            let image_url = match opt_text(o, "image_url") {
                Ok(v) => v,
                Err(e) => return Err(e),
            };
            let language = match req_text(o, "language") {
                Ok(v) => v,
                Err(e) => return Err(e),
            };
            let published_at = match req_text(o, "published_at") {
                Ok(v) => v,
                Err(e) => return Err(e),
            };
            let source = match req_text(o, "source") {
                Ok(v) => v,
                Err(e) => return Err(e),
            };
            let categories = match text_list(o, "categories") {
                Ok(v) => v,
                Err(e) => return Err(e),
            };
            let locale = match opt_text(o, "locale") {
                Ok(v) => v,
                Err(e) => return Err(e),
            };
            Ok(SimilarArticle { uuid, title, description, keywords, snippet, url, image_url, language, published_at, source, categories, locale })
        },
        _ => Err(String::from_str("expected an object")),
    }
}

/// Whether a document holds a meta record.
pub open spec fn meta_ok(j: Json) -> bool {
    match j {
        Json::Object(o) => {
            &&& count_at(o@, "found"@) is Some
            &&& count_at(o@, "returned"@) is Some
            &&& count_at(o@, "limit"@) is Some
            &&& count_at(o@, "page"@) is Some
        },
        _ => false,
    }
}

/// Whether a record holds, field for field, what a document gives.
pub open spec fn meta_fits(r: Meta, j: Json) -> bool {
    match j {
        Json::Object(o) => {
            &&& count_at(o@, "found"@) == Some(r.found)
            &&& count_at(o@, "returned"@) == Some(r.returned)
            &&& count_at(o@, "limit"@) == Some(r.limit)
            &&& count_at(o@, "page"@) == Some(r.page)
        },
        _ => false,
    }
}

/// Decodes a meta record; fails when a field is missing or mistyped.
pub fn decode_meta(j: &Json) -> (r: Result<Meta, String>)
    ensures
        r is Ok <==> meta_ok(*j),
        r matches Ok(v) ==> meta_fits(v, *j),
{
    match j {
        Json::Object(o) => {
            let found = match req_count(o, "found") {
                Ok(v) => v,
                Err(e) => return Err(e),
            };
            let returned = match req_count(o, "returned") {
                Ok(v) => v,
                Err(e) => return Err(e),
            };
            let limit = match req_count(o, "limit") {
                Ok(v) => v,
                Err(e) => return Err(e),
            };
            let page = match req_count(o, "page") {
                Ok(v) => v,
                Err(e) => return Err(e),
            };
            Ok(Meta { found, returned, limit, page })
        },
        _ => Err(String::from_str("expected an object")),
    }
}

/// Whether a document holds a article by uuid record.
pub open spec fn article_by_uuid_ok(j: Json) -> bool {
    match j {
        Json::Object(o) => {
            &&& text_at(o@, "uuid"@) is Some
            &&& text_at(o@, "title"@) is Some
            &&& text_at(o@, "description"@) is Some
            &&& opt_text_ok(o@, "keywords"@)
            &&& text_at(o@, "snippet"@) is Some
            &&& text_at(o@, "url"@) is Some
            &&& opt_text_ok(o@, "image_url"@)
            &&& text_at(o@, "language"@) is Some
            &&& text_at(o@, "published_at"@) is Some
            &&& text_at(o@, "source"@) is Some
            &&& list_ok(o@, "categories"@)
        },
        _ => false,
    }
}

/// Whether a record holds, field for field, what a document gives.
pub open spec fn article_by_uuid_fits(r: ArticleByUuidResponse, j: Json) -> bool {
    match j {
        Json::Object(o) => {
            &&& text_at(o@, "uuid"@) == Some(r.uuid)
            &&& text_at(o@, "title"@) == Some(r.title)
            &&& text_at(o@, "description"@) == Some(r.description)
            &&& r.keywords == opt_text_at(o@, "keywords"@)
            &&& text_at(o@, "snippet"@) == Some(r.snippet)
            &&& text_at(o@, "url"@) == Some(r.url)
            &&& r.image_url == opt_text_at(o@, "image_url"@)
            &&& text_at(o@, "language"@) == Some(r.language)
            &&& text_at(o@, "published_at"@) == Some(r.published_at)
            &&& text_at(o@, "source"@) == Some(r.source)
            &&& list_fits(r.categories@, o@, "categories"@)
        },
        _ => false,
    }
}

/// Decodes a article by uuid record; fails when a field is missing or mistyped.
pub fn decode_article_by_uuid(j: &Json) -> (r: Result<ArticleByUuidResponse, String>)
    ensures
        r is Ok <==> article_by_uuid_ok(*j),
        r matches Ok(v) ==> article_by_uuid_fits(v, *j),
{
    match j {
        Json::Object(o) => {
            let uuid = match req_text(o, "uuid") {
                Ok(v) => v,
                Err(e) => return Err(e),
            };
            let title = match req_text(o, "title") {
                Ok(v) => v,
                Err(e) => return Err(e),
            };
            let description = match req_text(o, "description") {
                Ok(v) => v,
                Err(e) => return Err(e),
            };
            let keywords = match opt_text(o, "keywords") {
                Ok(v) => v,
                Err(e) => return Err(e),
            };
            let snippet = match req_text(o, "snippet") {
                Ok(v) => v,
                Err(e) => return Err(e),
            };
            let url = match req_text(o, "url") {
                Ok(v) => v,
                Err(e) => return Err(e),
            };
            let image_url = match opt_text(o, "image_url") {
                Ok(v) => v,
                Err(e) => return Err(e),
            };
            let language = match req_text(o, "language") {
                Ok(v) => v,
                Err(e) => return Err(e),
            };
            let published_at = match req_text(o, "published_at") {
                Ok(v) => v,
                Err(e) => return Err(e),
            };
            let source = match req_text(o, "source") {
                Ok(v) => v,
                Err(e) => return Err(e),
            };
            let categories = match text_list(o, "categories") {
                Ok(v) => v,
                Err(e) => return Err(e),
            };
            Ok(ArticleByUuidResponse { uuid, title, description, keywords, snippet, url, image_url, language, published_at, source, categories })
        },
        _ => Err(String::from_str("expected an object")),
    }
}

/// Whether a document holds a source record.
pub open spec fn source_ok(j: Json) -> bool {
    match j {
        Json::Object(o) => {
            &&& text_at(o@, "source_id"@) is Some
            &&& text_at(o@, "domain"@) is Some
            &&& text_at(o@, "language"@) is Some
            &&& opt_text_ok(o@, "locale"@)
            &&& list_ok(o@, "categories"@)
        },
        _ => false,
    }
}

/// Whether a record holds, field for field, what a document gives.
pub open spec fn source_fits(r: Source, j: Json) -> bool {
    match j {
        Json::Object(o) => {
            &&& text_at(o@, "source_id"@) == Some(r.source_id)
            &&& text_at(o@, "domain"@) == Some(r.domain)
            &&& text_at(o@, "language"@) == Some(r.language)
            &&& r.locale == opt_text_at(o@, "locale"@)
            &&& list_fits(r.categories@, o@, "categories"@)
        },
        _ => false,
    }
}

/// Decodes a source record; fails when a field is missing or mistyped.
pub fn decode_source(j: &Json) -> (r: Result<Source, String>)
    ensures
        r is Ok <==> source_ok(*j),
        r matches Ok(v) ==> source_fits(v, *j),
{
    match j {
        Json::Object(o) => {
            let source_id = match req_text(o, "source_id") {
                Ok(v) => v,
                Err(e) => return Err(e),
            };
            let domain = match req_text(o, "domain") {
                Ok(v) => v,
                Err(e) => return Err(e),
            };
            let language = match req_text(o, "language") {
                Ok(v) => v,
                Err(e) => return Err(e),
            };
            let locale = match opt_text(o, "locale") {
                Ok(v) => v,
                Err(e) => return Err(e),
            };
            let categories = match text_list(o, "categories") {
                Ok(v) => v,
                Err(e) => return Err(e),
            };
            Ok(Source { source_id, domain, language, locale, categories })
        },
        _ => Err(String::from_str("expected an object")),
    }
}

pub open spec fn similar_articles_ok(items: Seq<Json>) -> bool {
    forall|i: int| 0 <= i < items.len() ==> similar_article_ok(#[trigger] items[i])
}

pub open spec fn similar_articles_fit(v: Seq<SimilarArticle>, items: Seq<Json>) -> bool {
    v.len() == items.len() && forall|i: int| 0 <= i < v.len() ==> similar_article_fits(#[trigger] v[i], items[i])
}

/// Decodes every item of an array; fails on the first item that does not decode.
pub fn decode_similar_article_list(items: &Vec<Json>) -> (r: Result<Vec<SimilarArticle>, String>)
    ensures
        r is Ok <==> similar_articles_ok(items@),
        r matches Ok(v) ==> similar_articles_fit(v@, items@),
{
    let mut out: Vec<SimilarArticle> = Vec::new();
    let mut k: usize = 0;
    while k < items.len()
        invariant
            k <= items@.len(),
            out@.len() == k,
            forall|m: int| 0 <= m < k ==> similar_article_fits(#[trigger] out@[m], items@[m]),
            forall|m: int| 0 <= m < k ==> similar_article_ok(#[trigger] items@[m]),
        decreases items@.len() - k,
    {
        match decode_similar_article(&items[k]) {
            Ok(v) => out.push(v),
            Err(e) => return Err(e),
        }
        k = k + 1;
    }
    Ok(out)
}

pub open spec fn articles_ok(items: Seq<Json>) -> bool {
    forall|i: int| 0 <= i < items.len() ==> article_ok(#[trigger] items[i])
}

pub open spec fn articles_fit(v: Seq<Article>, items: Seq<Json>) -> bool {
    v.len() == items.len() && forall|i: int| 0 <= i < v.len() ==> article_fits(#[trigger] v[i], items[i])
}

/// Decodes every item of an array; fails on the first item that does not decode.
pub fn decode_article_list(items: &Vec<Json>) -> (r: Result<Vec<Article>, String>)
    ensures
        r is Ok <==> articles_ok(items@),
        r matches Ok(v) ==> articles_fit(v@, items@),
{
    let mut out: Vec<Article> = Vec::new();
    let mut k: usize = 0;
    while k < items.len()
        invariant
            k <= items@.len(),
            out@.len() == k,
            forall|m: int| 0 <= m < k ==> article_fits(#[trigger] out@[m], items@[m]),
            forall|m: int| 0 <= m < k ==> article_ok(#[trigger] items@[m]),
        decreases items@.len() - k,
    {
        match decode_article(&items[k]) {
            Ok(v) => out.push(v),
            Err(e) => return Err(e),
        }
        k = k + 1;
    }
    Ok(out)
}

pub open spec fn sources_ok(items: Seq<Json>) -> bool {
    forall|i: int| 0 <= i < items.len() ==> source_ok(#[trigger] items[i])
}

pub open spec fn sources_fit(v: Seq<Source>, items: Seq<Json>) -> bool {
    v.len() == items.len() && forall|i: int| 0 <= i < v.len() ==> source_fits(#[trigger] v[i], items[i])
}

/// Decodes every item of an array; fails on the first item that does not decode.
pub fn decode_source_list(items: &Vec<Json>) -> (r: Result<Vec<Source>, String>)
    ensures
        r is Ok <==> sources_ok(items@),
        r matches Ok(v) ==> sources_fit(v@, items@),
{
    let mut out: Vec<Source> = Vec::new();
    let mut k: usize = 0;
    while k < items.len()
        invariant
            k <= items@.len(),
            out@.len() == k,
            forall|m: int| 0 <= m < k ==> source_fits(#[trigger] out@[m], items@[m]),
            forall|m: int| 0 <= m < k ==> source_ok(#[trigger] items@[m]),
        decreases items@.len() - k,
    {
        match decode_source(&items[k]) {
            Ok(v) => out.push(v),
            Err(e) => return Err(e),
        }
        k = k + 1;
    }
    Ok(out)
}

pub open spec fn similar_ok(o: Members, key: Seq<char>) -> bool {
    match lookup(o, key) {
        None => true,
        Some(Json::Null) => true,
        Some(Json::Array(items)) => similar_articles_ok(items@),
        _ => false,
    }
}

pub open spec fn similar_fits(v: Option<Vec<SimilarArticle>>, o: Members, key: Seq<char>) -> bool {
    match lookup(o, key) {
        Some(Json::Array(items)) => v matches Some(w) && similar_articles_fit(w@, items@),
        _ => v is None,
    }
}

fn similar_list(o: &Vec<(String, Json)>, key: &str) -> (r: Result<Option<Vec<SimilarArticle>>, String>)
    ensures
        r is Ok <==> similar_ok(o@, key@),
        r matches Ok(v) ==> similar_fits(v, o@, key@),
{
    match find(o, key) {
        Some(i) => match &o[i].1 {
            Json::Array(items) => match decode_similar_article_list(items) {
                Ok(v) => Ok(Some(v)),
                Err(e) => Err(e),
            },
            Json::Null => Ok(None),
            _ => Err(field_error("invalid type for field ", key)),
        },
        None => Ok(None),
    }
}

/// Whether a document is a page of articles: an object whose `meta` is a
/// pagination record and whose `data` is an array of articles.
pub open spec fn article_page_ok(j: Json) -> bool {
    match j {
        Json::Object(o) => {
            &&& lookup(o@, "meta"@) matches Some(m) && meta_ok(m)
            &&& lookup(o@, "data"@) matches Some(Json::Array(items)) && articles_ok(items@)
        },
        _ => false,
    }
}

pub open spec fn article_page_fits(meta: Meta, data: Seq<Article>, j: Json) -> bool {
    match j {
        Json::Object(o) => {
            &&& lookup(o@, "meta"@) matches Some(m) && meta_fits(meta, m)
            &&& lookup(o@, "data"@) matches Some(Json::Array(items)) && articles_fit(data, items@)
        },
        _ => false,
    }
}

fn decode_article_page(j: &Json) -> (r: Result<(Meta, Vec<Article>), String>)
    ensures
        r is Ok <==> article_page_ok(*j),
        r matches Ok(v) ==> article_page_fits(v.0, v.1@, *j),
{
    match j {
        Json::Object(o) => {
            let meta = match find(o, "meta") {
                Some(i) => match decode_meta(&o[i].1) {
                    Ok(m) => m,
                    Err(e) => return Err(e),
                },
                None => return Err(String::from_str("missing field meta")),
            };
            let data = match find(o, "data") {
                Some(i) => match &o[i].1 {
                    Json::Array(items) => match decode_article_list(items) {
                        Ok(v) => v,
                        Err(e) => return Err(e),
                    },
                    _ => return Err(String::from_str("invalid type for field data")),
                },
                None => return Err(String::from_str("missing field data")),
            };
            Ok((meta, data))
        },
        _ => Err(String::from_str("expected an object")),
    }
}

/// Whether a document is a page of sources: an object whose `meta` is a
/// pagination record and whose `data` is an array of sources.
pub open spec fn source_page_ok(j: Json) -> bool {
    match j {
        Json::Object(o) => {
            &&& lookup(o@, "meta"@) matches Some(m) && meta_ok(m)
            &&& lookup(o@, "data"@) matches Some(Json::Array(items)) && sources_ok(items@)
        },
        _ => false,
    }
}

pub open spec fn source_page_fits(meta: Meta, data: Seq<Source>, j: Json) -> bool {
    match j {
        Json::Object(o) => {
            &&& lookup(o@, "meta"@) matches Some(m) && meta_fits(meta, m)
            &&& lookup(o@, "data"@) matches Some(Json::Array(items)) && sources_fit(data, items@)
        },
        _ => false,
    }
}

fn decode_source_page(j: &Json) -> (r: Result<(Meta, Vec<Source>), String>)
    ensures
        r is Ok <==> source_page_ok(*j),
        r matches Ok(v) ==> source_page_fits(v.0, v.1@, *j),
{
    match j {
        Json::Object(o) => {
            let meta = match find(o, "meta") {
                Some(i) => match decode_meta(&o[i].1) {
                    Ok(m) => m,
                    Err(e) => return Err(e),
                },
                None => return Err(String::from_str("missing field meta")),
            };
            let data = match find(o, "data") {
                Some(i) => match &o[i].1 {
                    Json::Array(items) => match decode_source_list(items) {
                        Ok(v) => v,
                        Err(e) => return Err(e),
                    },
                    _ => return Err(String::from_str("invalid type for field data")),
                },
                None => return Err(String::from_str("missing field data")),
            };
            Ok((meta, data))
        },
        _ => Err(String::from_str("expected an object")),
    }
}

/// Decodes a top stories response.
pub fn decode_top_stories(j: &Json) -> (r: Result<TopStoriesResponse, String>)
    ensures
        r is Ok <==> article_page_ok(*j),
        r matches Ok(v) ==> article_page_fits(v.meta, v.data@, *j),
{
    match decode_article_page(j) {
        Ok((meta, data)) => Ok(TopStoriesResponse { meta, data }),
        Err(e) => Err(e),
    }
}

/// Decodes a all news response.
pub fn decode_all_news(j: &Json) -> (r: Result<AllNewsResponse, String>)
    ensures
        r is Ok <==> article_page_ok(*j),
        r matches Ok(v) ==> article_page_fits(v.meta, v.data@, *j),
{
    match decode_article_page(j) {
        Ok((meta, data)) => Ok(AllNewsResponse { meta, data }),
        Err(e) => Err(e),
    }
}

/// Decodes a similar news response.
pub fn decode_similar_news(j: &Json) -> (r: Result<SimilarNewsResponse, String>)
    ensures
        r is Ok <==> article_page_ok(*j),
        r matches Ok(v) ==> article_page_fits(v.meta, v.data@, *j),
{
    match decode_article_page(j) {
        Ok((meta, data)) => Ok(SimilarNewsResponse { meta, data }),
        Err(e) => Err(e),
    }
}

/// Decodes a sources response.
pub fn decode_sources(j: &Json) -> (r: Result<SourcesResponse, String>)
    ensures
        r is Ok <==> source_page_ok(*j),
        r matches Ok(v) ==> source_page_fits(v.meta, v.data@, *j),
{
    match decode_source_page(j) {
        Ok((meta, data)) => Ok(SourcesResponse { meta, data }),
        Err(e) => Err(e),
    }
}

/// Whether a document holds headlines: an object whose `data` is an object
/// that maps each category label to an array of articles.
pub open spec fn headlines_ok(j: Json) -> bool {
    match j {
        Json::Object(o) => lookup(o@, "data"@) matches Some(Json::Object(groups)) && forall|i: int|
            0 <= i < groups@.len() ==> ((#[trigger] groups@[i]).1 matches Json::Array(items)
                && articles_ok(items@)),
        _ => false,
    }
}

pub open spec fn group_fits(g: (String, Vec<Article>), m: (String, Json)) -> bool {
    g.0 == m.0 && (m.1 matches Json::Array(items) && articles_fit(g.1@, items@))
}

pub open spec fn headlines_fits(r: HeadlinesResponse, j: Json) -> bool {
    match j {
        Json::Object(o) => lookup(o@, "data"@) matches Some(Json::Object(groups)) && r.data@.len()
            == groups@.len() && forall|i: int|
            0 <= i < groups@.len() ==> group_fits(#[trigger] r.data@[i], groups@[i]),
        _ => false,
    }
}

/// Decodes a headlines response.
pub fn decode_headlines(j: &Json) -> (r: Result<HeadlinesResponse, String>)
    ensures
        r is Ok <==> headlines_ok(*j),
        r matches Ok(v) ==> headlines_fits(v, *j),
{
    match j {
        Json::Object(o) => match find(o, "data") {
            Some(i) => match &o[i].1 {
                Json::Object(groups) => {
                    let mut out: Vec<(String, Vec<Article>)> = Vec::new();
                    let mut k: usize = 0;
                    while k < groups.len()
                        invariant
                            *j == Json::Object(*o),
                            lookup(o@, "data"@) == Some(Json::Object(*groups)),
                            k <= groups@.len(),
                            out@.len() == k,
                            forall|m: int| 0 <= m < k ==> group_fits(#[trigger] out@[m], groups@[m]),
                            forall|m: int| 0 <= m < k ==> ((#[trigger] groups@[m]).1 matches Json::Array(items)
                                && articles_ok(items@)),
                        decreases groups@.len() - k,
                    {
                        match &groups[k].1 {
                            Json::Array(items) => match decode_article_list(items) {
                                Ok(v) => out.push((groups[k].0.clone(), v)),
                                Err(e) => return Err(e),
                            },
                            _ => return Err(String::from_str("invalid type for a headline group")),
                        }
                        k = k + 1;
                    }
                    Ok(HeadlinesResponse { data: out })
                },
                _ => Err(String::from_str("invalid type for field data")),
            },
            None => Err(String::from_str("missing field data")),
        },
        _ => Err(String::from_str("expected an object")),
    }
}

} // verus!
