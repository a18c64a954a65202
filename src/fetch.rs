use vstd::prelude::*;
use crate::model::{Comment, FetchError, StoryData, StoryItem};

verus! {

/// Whether every fetch of `results` succeeded.
pub open spec fn all_fetched<T>(results: Seq<Result<T, FetchError>>) -> bool {
    forall|i: int| 0 <= i < results.len() ==> results[i] is Ok
}

/// The fetched values of `results`, in order; meaningful when all succeeded.
pub open spec fn fetched_values<T>(results: Seq<Result<T, FetchError>>) -> Seq<T> {
    results.map_values(|r: Result<T, FetchError>| r->Ok_0)
}

/// Whether `e` is the error of the first failed fetch of `results`.
pub open spec fn is_first_failure<T>(results: Seq<Result<T, FetchError>>, e: FetchError) -> bool {
    exists|k: int|
        0 <= k < results.len() && results[k] == Err::<T, FetchError>(e)
            && forall|j: int| 0 <= j < k ==> (#[trigger] results[j]) is Ok
}

/// Gathers the results of a batch of fetches, issued in source order: all the
/// values in that order when every fetch succeeded, else the first error.
pub fn collect_fetched<T>(results: Vec<Result<T, FetchError>>) -> (r: Result<Vec<T>, FetchError>)
    ensures
        r is Ok <==> all_fetched(results@),
        r matches Ok(values) ==> values@ == fetched_values(results@),
        r matches Err(e) ==> is_first_failure(results@, e),
{
    let ghost all = results@;
    let mut values: Vec<T> = Vec::new();
    for result in it: results.into_iter()
        invariant
            it.seq() == all,
            values@ == fetched_values(all.take(it.index() as int)),
            forall|j: int| 0 <= j < it.index() ==> (#[trigger] all[j]) is Ok,
    {
        let ghost i = it.index() as int;
        match result {
            Ok(v) => {
                values.push(v);
                assert(all.take(i + 1) == all.take(i).push(all[i]));
            },
            Err(e) => {
                assert(all[i] == Err::<T, FetchError>(e));
                return Err(e);
            },
        }
    }
    assert(all.take(all.len() as int) == all);
    Ok(values)
}

/// The identifiers of the top `limit` stories, given the ranked identifiers
/// that the story API lists: the ranking order is kept, nothing is re-sorted.
pub fn top_story_ids(ranked: &Vec<u64>, limit: usize) -> (r: Vec<u64>)
    requires
        limit > 0,
    ensures
        r@ == ranked@.take(if limit < ranked@.len() { limit as int } else { ranked@.len() as int }),
{
    let count: usize = if limit < ranked.len() { limit } else { ranked.len() };
    let mut ids: Vec<u64> = Vec::new();
    let mut i: usize = 0;
    while i < count
        invariant
            count <= ranked@.len(),
            i <= count,
            ids@ == ranked@.take(i as int),
        decreases count - i,
    {
        ids.push(ranked[i]);
        assert(ranked@.take(i + 1) == ranked@.take(i as int).push(ranked@[i as int]));
        i = i + 1;
    }
    ids
}

/// The comments of `story`, from the fetches of its child comments issued in
/// the order of `story.kids`: all of them in that order when every fetch
/// succeeded, else the first error. A story without comments gives an empty
/// list, not an error.
pub fn story_comments(story: &StoryItem, fetched: Vec<Result<Comment, FetchError>>) -> (r: Result<StoryData, FetchError>)
    requires
        fetched@.len() == story.kid_count(),
    ensures
        r is Ok <==> all_fetched(fetched@),
        r matches Ok(data) ==> data.comments@ == fetched_values(fetched@),
        r matches Err(e) ==> is_first_failure(fetched@, e),
        story.kid_count() == 0 ==> (r matches Ok(data) && data.comments@.len() == 0),
{
    match collect_fetched(fetched) {
        Ok(comments) => Ok(StoryData { comments }),
        Err(e) => Err(e),
    }
}

} // verus!
