use vstd::prelude::*;
use crate::codec::{decode_view, encodable, RecordView};
use crate::errors::RepositoryError;
use crate::model::{views_of, Tweet, TweetID};
use crate::order::{lemma_lex_lt_irrefl, lex_lt};
use crate::source::{
    query_request, requested_fields, search_query, since_request, SearchRequest, SourceError,
    PAGE_SIZE,
};
use crate::store::{BatchError, TweetStore};
use crate::table::{holds_id, is_stored, upserted_all};

verus! {

/// Pause between two ingestion cycles, in seconds.
pub const CYCLE_INTERVAL_SECS: u64 = 5;

/// `id` is the id of a stored record that no stored record was created after:
/// the watermark of the store.
pub open spec fn is_watermark(s: Seq<RecordView>, id: Seq<char>) -> bool {
    exists|i: int|
        0 <= i < s.len() && #[trigger] s[i].id == id && forall|j: int|
            0 <= j < s.len() ==> !lex_lt(s[i].created_at, #[trigger] s[j].created_at)
}

/// What one ingestion cycle came to.
#[derive(Debug, PartialEq, Eq, Structural, Clone, Copy)]
pub enum CycleOutcome {
    /// Every fetched post was stored.
    Stored { count: usize },
    /// The fetch failed; nothing was stored.
    SourceFailed(SourceError),
    /// Storing stopped at a post; those before it were stored.
    StoreFailed(BatchError),
}

impl TweetStore {
    /// The watermark: the id of the most recently created stored post, or
    /// `None` when nothing is stored (the cold state).
    pub fn watermark(&self) -> (r: Option<TweetID>)
        requires
            self.wf(),
        ensures
            (self@.len() == 0) == (r is None),
            match r {
                Some(c) => is_watermark(self@, c.0@),
                None => true,
            },
    {
        let newest = self.latest(1);
        if newest.len() == 0 {
            return None;
        }
        let cursor = TweetID(newest[0].id.clone());
        proof {
            let s = self@;
            let ts = views_of(newest@);
            assert(ts[0] == newest@[0]@);
            assert(is_stored(s, ts[0]));
            let i = choose|i: int| 0 <= i < s.len() && ts[0] == decode_view(#[trigger] s[i]);
            assert forall|j: int| 0 <= j < s.len() implies !lex_lt(
                s[i].created_at,
                #[trigger] s[j].created_at,
            ) by {
                if holds_id(ts, s[j].id) {
                    let k = choose|k: int| 0 <= k < ts.len() && #[trigger] ts[k].id == s[j].id;
                    assert(k == 0);
                    if i != j {
                        assert(s[i].id != s[j].id);
                    }
                    lemma_lex_lt_irrefl(s[i].created_at);
                } else {
                    assert(!lex_lt(ts[0].created_at, s[j].created_at));
                }
            }
            assert(s[i].id == cursor.0@);
        }
        Some(cursor)
    }

    /// The request of the next cycle for `term`. With nothing stored it is a
    /// plain search (a cold start); otherwise it asks only for posts newer
    /// than the id of the most recently created stored post.
    pub fn next_request(&self, term: &str) -> (r: SearchRequest)
        requires
            self.wf(),
        ensures
            r.query@ == search_query(term@),
            r.fields@ == requested_fields(),
            r.max_results == PAGE_SIZE,
            (self@.len() == 0) == (r.since_id is None),
            match r.since_id {
                Some(c) => is_watermark(self@, c@),
                None => true,
            },
    {
        match self.watermark() {
            None => query_request(term),
            Some(cursor) => since_request(term, &cursor),
        }
    }

    /// Stores what one cycle fetched. A failed fetch leaves the store as it
    /// was; otherwise the posts are stored in order, as by `upsert_batch`.
    pub fn ingest(&mut self, fetched: Result<Vec<Tweet>, SourceError>) -> (r: CycleOutcome)
        requires
            old(self).wf(),
        ensures
            final(self).wf(),
            match fetched {
                Err(e) => r == CycleOutcome::SourceFailed(e) && final(self)@ == old(self)@,
                Ok(ts) => match r {
                    CycleOutcome::Stored { count } => {
                        &&& count == ts@.len()
                        &&& forall|i: int| 0 <= i < ts@.len() ==> encodable(#[trigger] ts@[i]@)
                        &&& final(self)@ == upserted_all(old(self)@, views_of(ts@))
                    },
                    CycleOutcome::StoreFailed(e) => {
                        &&& e.index < ts@.len()
                        &&& e.error == RepositoryError::InvalidRecord
                        &&& !encodable(ts@[e.index as int]@)
                        &&& forall|i: int| 0 <= i < e.index ==> encodable(#[trigger] ts@[i]@)
                        &&& final(self)@ == upserted_all(
                            old(self)@,
                            views_of(ts@).take(e.index as int),
                        )
                    },
                    CycleOutcome::SourceFailed(_) => false,
                },
            },
    {
        match fetched {
            Err(e) => CycleOutcome::SourceFailed(e),
            Ok(tweets) => {
                let count = tweets.len();
                match self.upsert_batch(tweets) {
                    Ok(()) => CycleOutcome::Stored { count },
                    Err(e) => CycleOutcome::StoreFailed(e),
                }
            },
        }
    }
}

} // verus!
