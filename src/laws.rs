//! Laws of the query encoder.
use vstd::prelude::*;
use crate::query::{
    encoded, kept, token_key, FieldsView, QueryParams, HeadlinesParams, TopStoriesParams,
    AllNewsParams, SimilarNewsParams,
};

verus! {

proof fn lemma_kept_sourced(fields: FieldsView)
    ensures
        forall|i: int|
            0 <= i < kept(fields).len() ==> {
                &&& (#[trigger] kept(fields)[i]).0 != token_key()
                &&& exists|j: int|
                    0 <= j < fields.len() && fields[j] == (kept(fields)[i].0, Some(
                        kept(fields)[i].1,
                    ))
            },
    decreases fields.len(),
{
    if fields.len() > 0 {
        let init = fields.drop_last();
        lemma_kept_sourced(init);
        assert forall|i: int| 0 <= i < kept(fields).len() implies {
            &&& (#[trigger] kept(fields)[i]).0 != token_key()
            &&& exists|j: int|
                0 <= j < fields.len() && fields[j] == (kept(fields)[i].0, Some(kept(fields)[i].1))
        } by {
            if i < kept(init).len() {
                assert(kept(fields)[i] == kept(init)[i]);
                let j = choose|j: int|
                    0 <= j < init.len() && init[j] == (kept(init)[i].0, Some(kept(init)[i].1));
                assert(fields[j] == init[j]);
            } else {
                assert(fields[fields.len() - 1] == fields.last());
            }
        }
    }
}

proof fn lemma_kept_empty(fields: FieldsView)
    requires
        forall|j: int| 0 <= j < fields.len() ==> (#[trigger] fields[j]).1 is None,
    ensures
        kept(fields).len() == 0,
    decreases fields.len(),
{
    if fields.len() > 0 {
        let init = fields.drop_last();
        assert forall|j: int| 0 <= j < init.len() implies (#[trigger] init[j]).1 is None by {
            assert(init[j] == fields[j]);
        }
        lemma_kept_empty(init);
        assert(fields.last() == fields[fields.len() - 1]);
    }
}

proof fn lemma_kept_present(fields: FieldsView, j: int)
    requires
        0 <= j < fields.len(),
        fields[j].1 is Some,
        fields[j].0 != token_key(),
    ensures
        kept(fields).contains((fields[j].0, fields[j].1->Some_0)),
    decreases fields.len(),
{
    let e = (fields[j].0, fields[j].1->Some_0);
    if j == fields.len() - 1 {
        assert(kept(fields)[kept(fields).len() - 1] == e);
    } else {
        let init = fields.drop_last();
        assert(init[j] == fields[j]);
        lemma_kept_present(init, j);
        let k = choose|k: int| 0 <= k < kept(init).len() && kept(init)[k] == e;
        assert(kept(fields)[k] == e);
    }
}

/// Every encoded query ends with the token under its key, and that key occurs
/// nowhere else; every other entry is a present field of the record, with
/// that field's rendered value, so no absent field leaves a trace.
pub proof fn law_token_once_and_no_absent<P: QueryParams>(params: P, token: Seq<char>)
    ensures
        ({
            let q = encoded(params.fields(), token);
            &&& q.len() >= 1
            &&& q.last() == (token_key(), token)
            &&& forall|i: int| 0 <= i < q.len() - 1 ==> (#[trigger] q[i]).0 != token_key()
            &&& forall|i: int|
                0 <= i < q.len() - 1 ==> exists|j: int|
                    0 <= j < params.fields().len() && params.fields()[j] == (
                        (#[trigger] q[i]).0,
                        Some(q[i].1),
                    )
        }),
{
    let f = params.fields();
    let q = encoded(f, token);
    lemma_kept_sourced(f);
    assert forall|i: int| 0 <= i < q.len() - 1 implies (#[trigger] q[i]).0 != token_key() by {
        assert(q[i] == kept(f)[i]);
    }
    assert forall|i: int| 0 <= i < q.len() - 1 implies exists|j: int|
        0 <= j < f.len() && f[j] == ((#[trigger] q[i]).0, Some(q[i].1)) by {
        assert(q[i] == kept(f)[i]);
    }
}

/// A record with no field present encodes to the token entry alone.
pub proof fn law_empty_record_only_token<P: QueryParams>(params: P, token: Seq<char>)
    requires
        forall|j: int| 0 <= j < params.fields().len() ==> (#[trigger] params.fields()[j]).1 is None,
    ensures
        encoded(params.fields(), token) == seq![(token_key(), token)],
{
    lemma_kept_empty(params.fields());
    assert(encoded(params.fields(), token) =~= seq![(token_key(), token)]);
}

proof fn lemma_date_kept(f: FieldsView, j: int, name: &str, d: &str, token: Seq<char>)
    requires
        0 <= j < f.len(),
        f[j] == (name@, Some(d@)),
        name@.len() != 9,
    ensures
        encoded(f, token).contains((name@, d@)),
{
    reveal_strlit("api_token");
    lemma_kept_present(f, j);
    let k = choose|k: int| 0 <= k < kept(f).len() && kept(f)[k] == (name@, d@);
    assert(encoded(f, token)[k] == (name@, d@));
}

/// A date given to the headlines endpoint is sent exactly as written.
pub proof fn law_dates_verbatim_headlines(params: HeadlinesParams, token: Seq<char>)
    ensures
        params.published_on matches Some(d) ==> encoded(params.fields(), token).contains(
            ("published_on"@, d@),
        ),
{
    reveal_strlit("published_on");
    if let Some(d) = params.published_on {
        lemma_date_kept(params.fields(), 6, "published_on", d, token);
    }
}

/// Dates given to the top stories endpoint are sent exactly as written.
pub proof fn law_dates_verbatim_top_stories(params: TopStoriesParams, token: Seq<char>)
    ensures
        params.published_before matches Some(d) ==> encoded(params.fields(), token).contains(
            ("published_before"@, d@),
        ),
        params.published_after matches Some(d) ==> encoded(params.fields(), token).contains(
            ("published_after"@, d@),
        ),
        params.published_on matches Some(d) ==> encoded(params.fields(), token).contains(
            ("published_on"@, d@),
        ),
{
    reveal_strlit("published_before");
    reveal_strlit("published_after");
    reveal_strlit("published_on");
    if let Some(d) = params.published_before {
        lemma_date_kept(params.fields(), 10, "published_before", d, token);
    }
    if let Some(d) = params.published_after {
        lemma_date_kept(params.fields(), 11, "published_after", d, token);
    }
    if let Some(d) = params.published_on {
        lemma_date_kept(params.fields(), 12, "published_on", d, token);
    }
}

/// Dates given to the all news endpoint are sent exactly as written.
pub proof fn law_dates_verbatim_all_news(params: AllNewsParams, token: Seq<char>)
    ensures
        params.published_before matches Some(d) ==> encoded(params.fields(), token).contains(
            ("published_before"@, d@),
        ),
        params.published_after matches Some(d) ==> encoded(params.fields(), token).contains(
            ("published_after"@, d@),
        ),
        params.published_on matches Some(d) ==> encoded(params.fields(), token).contains(
            ("published_on"@, d@),
        ),
{
    reveal_strlit("published_before");
    reveal_strlit("published_after");
    reveal_strlit("published_on");
    if let Some(d) = params.published_before {
        lemma_date_kept(params.fields(), 10, "published_before", d, token);
    }
    if let Some(d) = params.published_after {
        lemma_date_kept(params.fields(), 11, "published_after", d, token);
    }
    if let Some(d) = params.published_on {
        lemma_date_kept(params.fields(), 12, "published_on", d, token);
    }
}

/// Dates given to the similar news endpoint are sent exactly as written.
pub proof fn law_dates_verbatim_similar_news(params: SimilarNewsParams, token: Seq<char>)
    ensures
        params.published_before matches Some(d) ==> encoded(params.fields(), token).contains(
            ("published_before"@, d@),
        ),
        params.published_after matches Some(d) ==> encoded(params.fields(), token).contains(
            ("published_after"@, d@),
        ),
        params.published_on matches Some(d) ==> encoded(params.fields(), token).contains(
            ("published_on"@, d@),
        ),
{
    reveal_strlit("published_before");
    reveal_strlit("published_after");
    reveal_strlit("published_on");
    if let Some(d) = params.published_before {
        lemma_date_kept(params.fields(), 7, "published_before", d, token);
    }
    if let Some(d) = params.published_after {
        lemma_date_kept(params.fields(), 8, "published_after", d, token);
    }
    if let Some(d) = params.published_on {
        lemma_date_kept(params.fields(), 9, "published_on", d, token);
    }
}

} // verus!
