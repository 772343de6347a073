//! Encoding of parameter records into flat query-string entries.
use vstd::prelude::*;

verus! {

/// The rendered fields of a parameter record: each field's name and, when
/// the field is present, its value as text.
pub type FieldsView = Seq<(Seq<char>, Option<Seq<char>>)>;

/// The entries of an encoded query, as text.
pub type QueryView = Seq<(Seq<char>, Seq<char>)>;

/// The key under which the client's token is sent.
pub open spec fn token_key() -> Seq<char> {
    "api_token"@
}

pub open spec fn fields_view(v: Seq<(String, Option<String>)>) -> FieldsView {
    v.map_values(|f: (String, Option<String>)| (f.0@, opt_view(f.1)))
}

pub open spec fn query_view(v: Seq<(String, String)>) -> QueryView {
    v.map_values(|e: (String, String)| (e.0@, e.1@))
}

pub open spec fn opt_view(o: Option<String>) -> Option<Seq<char>> {
    match o {
        Some(s) => Some(s@),
        None => None,
    }
}

/// The entry that one field contributes: none when it is absent or when it
/// would shadow the token key.
pub open spec fn entry_of(f: (Seq<char>, Option<Seq<char>>)) -> QueryView {
    match f.1 {
        Some(v) => if f.0 != token_key() {
            seq![(f.0, v)]
        } else {
            Seq::empty()
        },
        None => Seq::empty(),
    }
}

/// The entries of the present fields, in declaration order.
pub open spec fn kept(fields: FieldsView) -> QueryView
    decreases fields.len(),
{
    if fields.len() == 0 {
        Seq::empty()
    } else {
        kept(fields.drop_last()) + entry_of(fields.last())
    }
}

/// The encoded query: the present fields followed by the token.
pub open spec fn encoded(fields: FieldsView, token: Seq<char>) -> QueryView {
    kept(fields).push((token_key(), token))
}

/// Encodes a list of rendered fields, appending the token last.
pub fn encode_fields(fields: Vec<(String, Option<String>)>, token: &str) -> (r: Vec<(String, String)>)
    ensures
        query_view(r@) == encoded(fields_view(fields@), token@),
{
    let key = String::from_str("api_token");
    let mut out: Vec<(String, String)> = Vec::new();
    let n = fields.len();
    let mut i: usize = 0;
    while i < n
        invariant
            n == fields@.len(),
            i <= n,
            key@ == token_key(),
            query_view(out@) == kept(fields_view(fields@.take(i as int))),
        decreases n - i,
    {
        let name = fields[i].0.clone();
        let value = fields[i].1.clone();
        proof {
            assert(fields_view(fields@.take(i as int + 1)).drop_last() =~= fields_view(
                fields@.take(i as int),
            ));
            assert(fields_view(fields@.take(i as int + 1)).last() == fields_view(fields@)[i as int]);
        }
        match value {
            Some(v) => {
                if !(name == key) {
                    out.push((name, v));
                }
            },
            None => {},
        }
        assert(query_view(out@) =~= kept(fields_view(fields@.take(i as int + 1))));
        i = i + 1;
    }
    assert(fields@.take(n as int) =~= fields@);
    out.push((key, String::from_str(token)));
    assert(query_view(out@) =~= encoded(fields_view(fields@), token@));
    out
}


/// The character of a decimal digit.
pub open spec fn digit_char(d: nat) -> char {
    if d == 0 { '0' }
    else if d == 1 { '1' }
    else if d == 2 { '2' }
    else if d == 3 { '3' }
    else if d == 4 { '4' }
    else if d == 5 { '5' }
    else if d == 6 { '6' }
    else if d == 7 { '7' }
    else if d == 8 { '8' }
    else { '9' }
}

/// The base-10 digits of `n`, most significant first, with no leading zero.
pub open spec fn decimal(n: nat) -> Seq<char>
    decreases n,
{
    if n < 10 {
        seq![digit_char(n)]
    } else {
        decimal(n / 10).push(digit_char(n % 10))
    }
}

/// The literal word of a boolean.
pub open spec fn flag_word(b: bool) -> Seq<char> {
    if b { "true"@ } else { "false"@ }
}

/// A text field's value: passed through verbatim.
pub open spec fn text_field(o: Option<&str>) -> Option<Seq<char>> {
    match o {
        Some(s) => Some(s@),
        None => None,
    }
}

/// A count field's value: its decimal digits.
pub open spec fn count_field(o: Option<usize>) -> Option<Seq<char>> {
    match o {
        Some(n) => Some(decimal(n as nat)),
        None => None,
    }
}

/// A flag field's value: `true` or `false`.
pub open spec fn flag_field(o: Option<bool>) -> Option<Seq<char>> {
    match o {
        Some(b) => Some(flag_word(b)),
        None => None,
    }
}

fn digit_text(d: usize) -> (r: &'static str)
    requires
        d < 10,
    ensures
        r@ == seq![digit_char(d as nat)],
{
    proof {
        reveal_strlit("0");
        reveal_strlit("1");
        reveal_strlit("2");
        reveal_strlit("3");
        reveal_strlit("4");
        reveal_strlit("5");
        reveal_strlit("6");
        reveal_strlit("7");
        reveal_strlit("8");
        reveal_strlit("9");
    }
    let r = if d == 0 { "0" }
    else if d == 1 { "1" }
    else if d == 2 { "2" }
    else if d == 3 { "3" }
    else if d == 4 { "4" }
    else if d == 5 { "5" }
    else if d == 6 { "6" }
    else if d == 7 { "7" }
    else if d == 8 { "8" }
    else { "9" };
    assert(r@ =~= seq![digit_char(d as nat)]);
    r
}

/// Renders a count as base-10 digits.
pub fn render_count(n: usize) -> (r: String)
    ensures
        r@ == decimal(n as nat),
    decreases n,
{
    if n < 10 {
        String::from_str(digit_text(n))
    } else {
        let mut s = render_count(n / 10);
        s.append(digit_text(n % 10));
        s
    }
}

/// Renders a flag as the word `true` or `false`.
pub fn render_flag(b: bool) -> (r: String)
    ensures
        r@ == flag_word(b),
{
    if b {
        String::from_str("true")
    } else {
        String::from_str("false")
    }
}

fn text_entry(name: &str, v: Option<&str>) -> (r: (String, Option<String>))
    ensures
        r.0@ == name@,
        opt_view(r.1) == text_field(v),
{
    let value = match v {
        Some(s) => Some(String::from_str(s)),
        None => None,
    };
    (String::from_str(name), value)
}

fn count_entry(name: &str, v: Option<usize>) -> (r: (String, Option<String>))
    ensures
        r.0@ == name@,
        opt_view(r.1) == count_field(v),
{
    let value = match v {
        Some(n) => Some(render_count(n)),
        None => None,
    };
    (String::from_str(name), value)
}

fn flag_entry(name: &str, v: Option<bool>) -> (r: (String, Option<String>))
    ensures
        r.0@ == name@,
        opt_view(r.1) == flag_field(v),
{
    let value = match v {
        Some(b) => Some(render_flag(b)),
        None => None,
    };
    (String::from_str(name), value)
}

/// A parameter record whose fields can be listed for encoding.
pub trait QueryParams {
    /// The record's fields in declaration order, rendered as text.
    spec fn fields(&self) -> FieldsView;

    fn field_list(&self) -> (r: Vec<(String, Option<String>)>)
        ensures
            fields_view(r@) == self.fields(),
    ;
}

/// Encodes a parameter record with the client's token.
pub fn encode_query<P: QueryParams>(params: &P, token: &str) -> (r: Vec<(String, String)>)
    ensures
        query_view(r@) == encoded(params.fields(), token@),
{
    encode_fields(params.field_list(), token)
}

/// Parameters of the headlines endpoint.
pub struct HeadlinesParams<'a> {
    pub locale: Option<&'a str>,
    pub domains: Option<&'a str>,
    pub exclude_domains: Option<&'a str>,
    pub source_ids: Option<&'a str>,
    pub exclude_source_ids: Option<&'a str>,
    pub language: Option<&'a str>,
    pub published_on: Option<&'a str>,
    pub headlines_per_category: Option<usize>,
    pub include_similar: Option<bool>,
}

impl<'a> Default for HeadlinesParams<'a> {
    fn default() -> (r: Self)
        ensures
            r.locale is None && r.domains is None && r.exclude_domains is None,
            r.source_ids is None && r.exclude_source_ids is None && r.language is None,
            r.published_on is None && r.headlines_per_category is None && r.include_similar is None,
    {
        HeadlinesParams {
            locale: None,
            domains: None,
            exclude_domains: None,
            source_ids: None,
            exclude_source_ids: None,
            language: None,
            published_on: None,
            headlines_per_category: None,
            include_similar: None,
        }
    }
}

impl<'a> QueryParams for HeadlinesParams<'a> {
    open spec fn fields(&self) -> FieldsView {
        seq![
            ("locale"@, text_field(self.locale)),
            ("domains"@, text_field(self.domains)),
            ("exclude_domains"@, text_field(self.exclude_domains)),
            ("source_ids"@, text_field(self.source_ids)),
            ("exclude_source_ids"@, text_field(self.exclude_source_ids)),
            ("language"@, text_field(self.language)),
            ("published_on"@, text_field(self.published_on)),
            ("headlines_per_category"@, count_field(self.headlines_per_category)),
            ("include_similar"@, flag_field(self.include_similar)),
        ]
    }

    fn field_list(&self) -> (r: Vec<(String, Option<String>)>) {
        let r = vec![
            text_entry("locale", self.locale),
            text_entry("domains", self.domains),
            text_entry("exclude_domains", self.exclude_domains),
            text_entry("source_ids", self.source_ids),
            text_entry("exclude_source_ids", self.exclude_source_ids),
            text_entry("language", self.language),
            text_entry("published_on", self.published_on),
            count_entry("headlines_per_category", self.headlines_per_category),
            flag_entry("include_similar", self.include_similar),
        ];
        assert(fields_view(r@) =~= self.fields());
        r
    }
}

/// Parameters of the top stories endpoint.
pub struct TopStoriesParams<'a> {
    pub search: Option<&'a str>,
    pub search_fields: Option<&'a str>,
    pub locale: Option<&'a str>,
    pub categories: Option<&'a str>,
    pub exclude_categories: Option<&'a str>,
    pub domains: Option<&'a str>,
    pub exclude_domains: Option<&'a str>,
    pub source_ids: Option<&'a str>,
    pub exclude_source_ids: Option<&'a str>,
    pub language: Option<&'a str>,
    pub published_before: Option<&'a str>,
    pub published_after: Option<&'a str>,
    pub published_on: Option<&'a str>,
    pub sort: Option<&'a str>,
    pub limit: Option<usize>,
    pub page: Option<usize>,
}

impl<'a> Default for TopStoriesParams<'a> {
    fn default() -> (r: Self)
        ensures
            r.search is None,
            r.search_fields is None,
            r.locale is None,
            r.categories is None,
            r.exclude_categories is None,
            r.domains is None,
            r.exclude_domains is None,
            r.source_ids is None,
            r.exclude_source_ids is None,
            r.language is None,
            r.published_before is None,
            r.published_after is None,
            r.published_on is None,
            r.sort is None,
            r.limit is None,
            r.page is None,
    {
        TopStoriesParams {
            search: None,
            search_fields: None,
            locale: None,
            categories: None,
            exclude_categories: None,
            domains: None,
            exclude_domains: None,
            source_ids: None,
            exclude_source_ids: None,
            language: None,
            published_before: None,
            published_after: None,
            published_on: None,
            sort: None,
            limit: None,
            page: None,
        }
    }
}

impl<'a> QueryParams for TopStoriesParams<'a> {
    open spec fn fields(&self) -> FieldsView {
        seq![
            ("search"@, text_field(self.search)),
            ("search_fields"@, text_field(self.search_fields)),
            ("locale"@, text_field(self.locale)),
            ("categories"@, text_field(self.categories)),
            ("exclude_categories"@, text_field(self.exclude_categories)),
            ("domains"@, text_field(self.domains)),
            ("exclude_domains"@, text_field(self.exclude_domains)),
            ("source_ids"@, text_field(self.source_ids)),
            ("exclude_source_ids"@, text_field(self.exclude_source_ids)),
            ("language"@, text_field(self.language)),
            ("published_before"@, text_field(self.published_before)),
            ("published_after"@, text_field(self.published_after)),
            ("published_on"@, text_field(self.published_on)),
            ("sort"@, text_field(self.sort)),
            ("limit"@, count_field(self.limit)),
            ("page"@, count_field(self.page)),
        ]
    }

    fn field_list(&self) -> (r: Vec<(String, Option<String>)>) {
        let r = vec![
            text_entry("search", self.search),
            text_entry("search_fields", self.search_fields),
            text_entry("locale", self.locale),
            text_entry("categories", self.categories),
            text_entry("exclude_categories", self.exclude_categories),
            text_entry("domains", self.domains),
            text_entry("exclude_domains", self.exclude_domains),
            text_entry("source_ids", self.source_ids),
            text_entry("exclude_source_ids", self.exclude_source_ids),
            text_entry("language", self.language),
            text_entry("published_before", self.published_before),
            text_entry("published_after", self.published_after),
            text_entry("published_on", self.published_on),
            text_entry("sort", self.sort),
            count_entry("limit", self.limit),
            count_entry("page", self.page),
        ];
        assert(fields_view(r@) =~= self.fields());
        r
    }
}

/// Parameters of the all news endpoint.
pub struct AllNewsParams<'a> {
    pub search: Option<&'a str>,
    pub search_fields: Option<&'a str>,
    pub locale: Option<&'a str>,
    pub categories: Option<&'a str>,
    pub exclude_categories: Option<&'a str>,
    pub domains: Option<&'a str>,
    pub exclude_domains: Option<&'a str>,
    pub source_ids: Option<&'a str>,
    pub exclude_source_ids: Option<&'a str>,
    pub language: Option<&'a str>,
    pub published_before: Option<&'a str>,
    pub published_after: Option<&'a str>,
    pub published_on: Option<&'a str>,
    pub sort: Option<&'a str>,
    pub limit: Option<usize>,
    pub page: Option<usize>,
}

impl<'a> Default for AllNewsParams<'a> {
    fn default() -> (r: Self)
        ensures
            r.search is None,
            r.search_fields is None,
            r.locale is None,
            r.categories is None,
            r.exclude_categories is None,
            r.domains is None,
            r.exclude_domains is None,
            r.source_ids is None,
            r.exclude_source_ids is None,
            r.language is None,
            r.published_before is None,
            r.published_after is None,
            r.published_on is None,
            r.sort is None,
            r.limit is None,
            r.page is None,
    {
        AllNewsParams {
            search: None,
            search_fields: None,
            locale: None,
            categories: None,
            exclude_categories: None,
            domains: None,
            exclude_domains: None,
            source_ids: None,
            exclude_source_ids: None,
            language: None,
            published_before: None,
            published_after: None,
            published_on: None,
            sort: None,
            limit: None,
            page: None,
        }
    }
}

impl<'a> QueryParams for AllNewsParams<'a> {
    open spec fn fields(&self) -> FieldsView {
        seq![
            ("search"@, text_field(self.search)),
            ("search_fields"@, text_field(self.search_fields)),
            ("locale"@, text_field(self.locale)),
            ("categories"@, text_field(self.categories)),
            ("exclude_categories"@, text_field(self.exclude_categories)),
            ("domains"@, text_field(self.domains)),
            ("exclude_domains"@, text_field(self.exclude_domains)),
            ("source_ids"@, text_field(self.source_ids)),
            ("exclude_source_ids"@, text_field(self.exclude_source_ids)),
            ("language"@, text_field(self.language)),
            ("published_before"@, text_field(self.published_before)),
            ("published_after"@, text_field(self.published_after)),
            ("published_on"@, text_field(self.published_on)),
            ("sort"@, text_field(self.sort)),
            ("limit"@, count_field(self.limit)),
            ("page"@, count_field(self.page)),
        ]
    }

    fn field_list(&self) -> (r: Vec<(String, Option<String>)>) {
        let r = vec![
            text_entry("search", self.search),
            text_entry("search_fields", self.search_fields),
            text_entry("locale", self.locale),
            text_entry("categories", self.categories),
            text_entry("exclude_categories", self.exclude_categories),
            text_entry("domains", self.domains),
            text_entry("exclude_domains", self.exclude_domains),
            text_entry("source_ids", self.source_ids),
            text_entry("exclude_source_ids", self.exclude_source_ids),
            text_entry("language", self.language),
            text_entry("published_before", self.published_before),
            text_entry("published_after", self.published_after),
            text_entry("published_on", self.published_on),
            text_entry("sort", self.sort),
            count_entry("limit", self.limit),
            count_entry("page", self.page),
        ];
        assert(fields_view(r@) =~= self.fields());
        r
    }
}

/// Parameters of the similar news endpoint.
pub struct SimilarNewsParams<'a> {
    pub categories: Option<&'a str>,
    pub exclude_categories: Option<&'a str>,
    pub domains: Option<&'a str>,
    pub exclude_domains: Option<&'a str>,
    pub source_ids: Option<&'a str>,
    pub exclude_source_ids: Option<&'a str>,
    pub language: Option<&'a str>,
    pub published_before: Option<&'a str>,
    pub published_after: Option<&'a str>,
    pub published_on: Option<&'a str>,
    pub limit: Option<usize>,
    pub page: Option<usize>,
}

impl<'a> Default for SimilarNewsParams<'a> {
    fn default() -> (r: Self)
        ensures
            r.categories is None,
            r.exclude_categories is None,
            r.domains is None,
            r.exclude_domains is None,
            r.source_ids is None,
            r.exclude_source_ids is None,
            r.language is None,
            r.published_before is None,
            r.published_after is None,
            r.published_on is None,
            r.limit is None,
            r.page is None,
    {
        SimilarNewsParams {
            categories: None,
            exclude_categories: None,
            domains: None,
            exclude_domains: None,
            source_ids: None,
            exclude_source_ids: None,
            language: None,
            published_before: None,
            published_after: None,
            published_on: None,
            limit: None,
            page: None,
        }
    }
}

impl<'a> QueryParams for SimilarNewsParams<'a> {
    open spec fn fields(&self) -> FieldsView {
        seq![
            ("categories"@, text_field(self.categories)),
            ("exclude_categories"@, text_field(self.exclude_categories)),
            ("domains"@, text_field(self.domains)),
            ("exclude_domains"@, text_field(self.exclude_domains)),
            ("source_ids"@, text_field(self.source_ids)),
            ("exclude_source_ids"@, text_field(self.exclude_source_ids)),
            ("language"@, text_field(self.language)),
            ("published_before"@, text_field(self.published_before)),
            ("published_after"@, text_field(self.published_after)),
            ("published_on"@, text_field(self.published_on)),
            ("limit"@, count_field(self.limit)),
            ("page"@, count_field(self.page)),
        ]
    }

    fn field_list(&self) -> (r: Vec<(String, Option<String>)>) {
        let r = vec![
            text_entry("categories", self.categories),
            text_entry("exclude_categories", self.exclude_categories),
            text_entry("domains", self.domains),
            text_entry("exclude_domains", self.exclude_domains),
            text_entry("source_ids", self.source_ids),
            text_entry("exclude_source_ids", self.exclude_source_ids),
            text_entry("language", self.language),
            text_entry("published_before", self.published_before),
            text_entry("published_after", self.published_after),
            text_entry("published_on", self.published_on),
            count_entry("limit", self.limit),
            count_entry("page", self.page),
        ];
        assert(fields_view(r@) =~= self.fields());
        r
    }
}

/// Parameters of the sources endpoint.
pub struct SourcesParams<'a> {
    pub categories: Option<&'a str>,
    pub exclude_categories: Option<&'a str>,
    pub language: Option<&'a str>,
    pub page: Option<usize>,
}

impl<'a> Default for SourcesParams<'a> {
    fn default() -> (r: Self)
        ensures
            r.categories is None,
            r.exclude_categories is None,
            r.language is None,
            r.page is None,
    {
        SourcesParams {
            categories: None,
            exclude_categories: None,
            language: None,
            page: None,
        }
    }
}

impl<'a> QueryParams for SourcesParams<'a> {
    open spec fn fields(&self) -> FieldsView {
        seq![
            ("categories"@, text_field(self.categories)),
            ("exclude_categories"@, text_field(self.exclude_categories)),
            ("language"@, text_field(self.language)),
            ("page"@, count_field(self.page)),
        ]
    }

    fn field_list(&self) -> (r: Vec<(String, Option<String>)>) {
        let r = vec![
            text_entry("categories", self.categories),
            text_entry("exclude_categories", self.exclude_categories),
            text_entry("language", self.language),
            count_entry("page", self.page),
        ];
        assert(fields_view(r@) =~= self.fields());
        r
    }
}

} // verus!
