use vstd::prelude::*;
use crate::codec::{
    decodable, decode_view, encodable, encode_view, record_views, RecordView, TweetRecord,
};
use crate::errors::RepositoryError;
use crate::order::{lemma_lex_lt_irrefl, lemma_lex_lt_trans, lex_lt, text_lt};
use crate::model::{clone_opt, views_of, Tweet, TweetID, TweetView};
use crate::table::{
    find, find_from, holds_id, put_all, is_latest, is_stored, lemma_find, matching, text_has, lemma_removed_wf, lemma_upserted_wf, removed, table_wf, upserted,
    upserted_all,
};

verus! {

/// A store of tweet records keyed by id: each id at most once, and every
/// record readable.
pub struct TweetStore {
    records: Vec<TweetRecord>,
}

/// The first post of a batch that could not be stored, by position.
#[derive(Debug, PartialEq, Eq, Structural, Clone, Copy)]
pub struct BatchError {
    pub index: usize,
    pub error: RepositoryError,
}

impl View for TweetStore {
    type V = Seq<RecordView>;

    closed spec fn view(&self) -> Seq<RecordView> {
        record_views(self.records@)
    }
}

/// Reads back a record already known to be readable.
fn decode_stored(r: &TweetRecord) -> (t: Tweet)
    requires
        decodable(r@),
    ensures
        t@ == decode_view(r@),
{
    Tweet::new(
        r.id.clone(),
        r.text.clone(),
        r.author_id.clone(),
        r.created_at.clone(),
        clone_opt(&r.entities),
        clone_opt(&r.geo),
        clone_opt(&r.in_reply_to_user_id),
        Some(r.lang.clone()),
        r.possibly_sensitive,
        clone_opt(&r.referenced_tweets),
        Some(r.source.clone()),
        clone_opt(&r.withheld),
    )
}

/// Whether `needle` occurs in `hay` as a contiguous run of characters (the
/// empty needle occurs everywhere).
fn text_contains(hay: &str, needle: &str) -> (r: bool)
    ensures
        r == text_has(hay@, needle@),
{
    let h = hay.unicode_len();
    let n = needle.unicode_len();
    if n > h {
        return false;
    }
    let mut i: usize = 0;
    loop
        invariant
            h == hay@.len(),
            n == needle@.len(),
            n <= h,
            i <= h - n,
            forall|k: int| 0 <= k < i ==> #[trigger] hay@.subrange(k, k + n) != needle@,
        decreases h - n - i,
    {
        let mut j: usize = 0;
        let mut same = true;
        while j < n
            invariant_except_break
                same,
            invariant
                h == hay@.len(),
                n == needle@.len(),
                i + n <= h,
                j <= n,
                forall|m: int| 0 <= m < j ==> hay@[i + m] == needle@[m],
            ensures
                same ==> j == n,
                !same ==> hay@.subrange(i as int, i + n) != needle@,
            decreases n - j,
        {
            if hay.get_char(i + j) != needle.get_char(j) {
                assert(hay@.subrange(i as int, i + n)[j as int] != needle@[j as int]);
                same = false;
                break;
            }
            j = j + 1;
        }
        if same {
            assert(hay@.subrange(i as int, i + n) =~= needle@);
            return true;
        }
        if i == h - n {
            assert forall|k: int|
                0 <= k && k + needle@.len() <= hay@.len() implies #[trigger] hay@.subrange(
                k,
                k + needle@.len(),
            ) != needle@ by {
                if k == i {
                    assert(hay@.subrange(i as int, i + n) != needle@);
                }
            }
            return false;
        }
        i = i + 1;
    }
}

impl TweetStore {
    /// Unique ids, readable records.
    pub open spec fn wf(&self) -> bool {
        table_wf(self@)
    }

    /// An empty store.
    pub fn new() -> (r: TweetStore)
        ensures
            r@ == Seq::<RecordView>::empty(),
            r.wf(),
    {
        let r = TweetStore { records: Vec::new() };
        assert(r@ =~= Seq::<RecordView>::empty());
        r
    }

    /// Number of stored records.
    pub fn len(&self) -> (r: usize)
        ensures
            r == self@.len(),
    {
        self.records.len()
    }

    /// Whether no record is stored.
    pub fn is_empty(&self) -> (r: bool)
        ensures
            r == (self@.len() == 0),
    {
        self.records.len() == 0
    }

    /// Position of the record with the given id.
    fn position(&self, id: &String) -> (r: Option<usize>)
        ensures
            match r {
                Some(k) => find(self@, id@) == k as int,
                None => find(self@, id@) == -1,
            },
    {
        let mut i: usize = 0;
        while i < self.records.len()
            invariant
                i <= self.records.len(),
                find(self@, id@) == find_from(self@, id@, i as int),
                self@.len() == self.records@.len(),
            decreases self.records.len() - i,
        {
            assert(self@[i as int] == self.records@[i as int]@);
            if self.records[i].id == *id {
                return Some(i);
            }
            i = i + 1;
        }
        None
    }

    /// Puts a record in place of the one with its id, or adds it.
    fn put(&mut self, rec: TweetRecord)
        requires
            old(self).wf(),
            decodable(rec@),
        ensures
            final(self).wf(),
            final(self)@ == upserted(old(self)@, rec@),
    {
        proof {
            lemma_upserted_wf(self@, rec@);
            lemma_find(self@, rec@.id);
        }
        let pos = self.position(&rec.id);
        match pos {
            Some(k) => {
                self.records.set(k, rec);
            },
            None => {
                self.records.push(rec);
            },
        }
        assert(self@ =~= upserted(old(self)@, rec@));
    }

    /// Stores a post, replacing any record with its id. Fails with
    /// `InvalidRecord`, and changes nothing, exactly when one of its opaque
    /// documents is not well-formed JSON.
    pub fn upsert(&mut self, tweet: Tweet) -> (r: Result<(), RepositoryError>)
        requires
            old(self).wf(),
        ensures
            final(self).wf(),
            match r {
                Ok(()) => encodable(tweet@) && final(self)@ == upserted(
                    old(self)@,
                    encode_view(tweet@),
                ),
                Err(e) => !encodable(tweet@) && e == RepositoryError::InvalidRecord
                    && final(self)@ == old(self)@,
            },
    {
        match TweetRecord::from_model(tweet) {
            Ok(rec) => {
                self.put(rec);
                Ok(())
            },
            Err(e) => Err(e),
        }
    }

    /// Stores the posts one after another. At the first post that cannot be
    /// stored it stops and reports that post's position: the posts before it
    /// stay stored, it and the posts after it are not stored.
    pub fn upsert_batch(&mut self, tweets: Vec<Tweet>) -> (r: Result<(), BatchError>)
        requires
            old(self).wf(),
        ensures
            final(self).wf(),
            match r {
                Ok(()) => {
                    &&& forall|i: int| 0 <= i < tweets@.len() ==> encodable(#[trigger] tweets@[i]@)
                    &&& final(self)@ == upserted_all(
                        old(self)@,
                        views_of(tweets@),
                    )
                },
                Err(e) => {
                    &&& e.index < tweets@.len()
                    &&& e.error == RepositoryError::InvalidRecord
                    &&& !encodable(tweets@[e.index as int]@)
                    &&& forall|i: int| 0 <= i < e.index ==> encodable(#[trigger] tweets@[i]@)
                    &&& final(self)@ == upserted_all(
                        old(self)@,
                        views_of(tweets@).take(e.index as int),
                    )
                },
            },
    {
        let ghost views = views_of(tweets@);
        let ghost start = self@;
        let mut i: usize = 0;
        proof {
            assert(views.take(0) =~= Seq::<TweetView>::empty());
        }
        while i < tweets.len()
            invariant
                i <= tweets@.len(),
                self.wf(),
                start == old(self)@,
                views == views_of(tweets@),
                forall|j: int| 0 <= j < i ==> encodable(#[trigger] views[j]),
                self@ == upserted_all(start, views.take(i as int)),
            decreases tweets.len() - i,
        {
            let tweet = tweets[i].clone();
            assert(tweet@ == views[i as int]);
            match self.upsert(tweet) {
                Ok(()) => {
                    assert(views.take(i as int + 1).drop_last() =~= views.take(i as int));
                    i = i + 1;
                },
                Err(error) => {
                    assert forall|j: int| 0 <= j < i implies encodable(#[trigger] tweets@[j]@) by {
                        assert(tweets@[j]@ == views[j]);
                    }
                    return Err(BatchError { index: i, error });
                },
            }
        }
        assert(views.take(i as int) =~= views);
        assert forall|j: int| 0 <= j < tweets@.len() implies encodable(#[trigger] tweets@[j]@) by {
            assert(tweets@[j]@ == views[j]);
        }
        Ok(())
    }

    /// The post stored under the id; `RecordNotFound` when there is none.
    pub fn find_by_id(&self, id: &TweetID) -> (r: Result<Tweet, RepositoryError>)
        requires
            self.wf(),
        ensures
            match r {
                Ok(t) => find(self@, id.0@) >= 0 && t@ == decode_view(
                    self@[find(self@, id.0@)],
                ),
                Err(e) => find(self@, id.0@) == -1 && e == RepositoryError::RecordNotFound,
            },
    {
        match self.position(&id.0) {
            Some(k) => {
                proof {
                    lemma_find(self@, id.0@);
                    assert(self@[k as int] == self.records@[k as int]@);
                }
                Ok(decode_stored(&self.records[k]))
            },
            None => Err(RepositoryError::RecordNotFound),
        }
    }

    /// Removes the record with the id. Deleting an id that is not stored
    /// succeeds and changes nothing.
    pub fn delete(&mut self, id: &TweetID) -> (r: Result<(), RepositoryError>)
        requires
            old(self).wf(),
        ensures
            final(self).wf(),
            r is Ok,
            final(self)@ == removed(old(self)@, id.0@),
            find(old(self)@, id.0@) == -1 ==> final(self)@ == old(self)@,
    {
        proof {
            lemma_removed_wf(self@, id.0@);
            lemma_find(self@, id.0@);
        }
        match self.position(&id.0) {
            Some(k) => {
                self.records.remove(k);
            },
            None => {},
        }
        assert(self@ =~= removed(old(self)@, id.0@));
        Ok(())
    }

    /// Every stored post whose text contains `query` (case-sensitive), in
    /// store order.
    pub fn search(&self, query: &str) -> (r: Vec<Tweet>)
        requires
            self.wf(),
        ensures
            r@.len() == matching(self@, query@).len(),
            forall|k: int|
                0 <= k < r@.len() ==> #[trigger] r@[k]@ == decode_view(matching(self@, query@)[k]),
    {
        let mut out: Vec<Tweet> = Vec::new();
        let mut i: usize = 0;
        proof {
            assert(self@.take(0) =~= Seq::<RecordView>::empty());
        }
        while i < self.records.len()
            invariant
                self.wf(),
                i <= self.records@.len(),
                self@.len() == self.records@.len(),
                out@.len() == matching(self@.take(i as int), query@).len(),
                forall|k: int|
                    0 <= k < out@.len() ==> #[trigger] out@[k]@ == decode_view(
                        matching(self@.take(i as int), query@)[k],
                    ),
            decreases self.records.len() - i,
        {
            let ghost before = self@.take(i as int);
            let ghost after = self@.take(i as int + 1);
            proof {
                assert(after.drop_last() =~= before);
                assert(self@[i as int] == self.records@[i as int]@);
            }
            if text_contains(self.records[i].text.as_str(), query) {
                let t = decode_stored(&self.records[i]);
                out.push(t);
            }
            i = i + 1;
        }
        proof {
            assert(self@.take(i as int) =~= self@);
        }
        out
    }

    /// Position in `rest` of a record whose `created_at` no other record
    /// listed in `rest` comes after.
    fn newest_among(&self, rest: &Vec<usize>) -> (b: usize)
        requires
            rest@.len() > 0,
            forall|j: int| 0 <= j < rest@.len() ==> rest@[j] < self@.len(),
        ensures
            b < rest@.len(),
            forall|m: int|
                0 <= m < rest@.len() ==> !lex_lt(
                    self@[rest@[b as int] as int].created_at,
                    #[trigger] self@[rest@[m] as int].created_at,
                ),
    {
        let ghost s = self@;
        assert(self@.len() == self.records@.len());
        proof {
            lemma_lex_lt_irrefl(s[rest@[0] as int].created_at);
        }
        let mut b: usize = 0;
        let mut j: usize = 1;
        while j < rest.len()
            invariant
                s == self@,
                s.len() == self.records@.len(),
                forall|j: int| 0 <= j < rest@.len() ==> rest@[j] < s.len(),
                b < rest@.len(),
                1 <= j <= rest@.len(),
                forall|m: int|
                    0 <= m < j ==> !lex_lt(
                        s[rest@[b as int] as int].created_at,
                        #[trigger] s[rest@[m] as int].created_at,
                    ),
            decreases rest.len() - j,
        {
            let ghost cb = s[rest@[b as int] as int].created_at;
            let ghost cj = s[rest@[j as int] as int].created_at;
            assert(self.records@[rest@[b as int] as int]@ == s[rest@[b as int] as int]);
            assert(self.records@[rest@[j as int] as int]@ == s[rest@[j as int] as int]);
            if text_lt(
                self.records[rest[b]].created_at.as_str(),
                self.records[rest[j]].created_at.as_str(),
            ) {
                proof {
                    assert forall|m: int| 0 <= m < j + 1 implies !lex_lt(
                        cj,
                        #[trigger] s[rest@[m] as int].created_at,
                    ) by {
                        if m == j {
                            lemma_lex_lt_irrefl(cj);
                        } else if lex_lt(cj, s[rest@[m] as int].created_at) {
                            lemma_lex_lt_trans(cb, cj, s[rest@[m] as int].created_at);
                        }
                    }
                }
                b = j;
            }
            j = j + 1;
        }
        b
    }

    /// The `n` most recently created posts, newest first (all of them when
    /// fewer are stored); none when the store is empty.
    pub fn latest(&self, n: usize) -> (r: Vec<Tweet>)
        requires
            self.wf(),
        ensures
            is_latest(views_of(r@), self@, n as nat),
    {
        let ghost s = self@;
        let len = self.records.len();
        assert(s.len() == len);
        let mut rest: Vec<usize> = Vec::new();
        let mut i: usize = 0;
        while i < len
            invariant
                i <= len,
                rest@.len() == i,
                forall|j: int| 0 <= j < i ==> rest@[j] == j,
            decreases len - i,
        {
            rest.push(i);
            i = i + 1;
        }
        let count = if n < len { n } else { len };
        let mut out: Vec<Tweet> = Vec::new();
        let ghost mut picked: Seq<int> = Seq::empty();
        proof {
            assert forall|i: int| 0 <= i < len implies picked.contains(i) || rest@.contains(
                i as usize,
            ) by {
                assert(rest@[i] == i);
            }
        }
        while out.len() < count
            invariant
                s == self@,
                table_wf(s),
                s.len() == len,
                len == self.records@.len(),
                count <= len,
                count == (if n < len { n } else { len }),
                out@.len() == picked.len(),
                out@.len() <= count,
                picked.len() + rest@.len() == len,
                forall|k: int| 0 <= k < picked.len() ==> 0 <= #[trigger] picked[k] < len,
                forall|j: int| 0 <= j < rest@.len() ==> #[trigger] rest@[j] < len,
                forall|k: int|
                    0 <= k < out@.len() ==> #[trigger] out@[k]@ == decode_view(s[picked[k]]),
                forall|k: int, l: int| 0 <= k < l < picked.len() ==> picked[k] != picked[l],
                forall|j: int, m: int| 0 <= j < m < rest@.len() ==> rest@[j] != rest@[m],
                forall|k: int, j: int|
                    0 <= k < picked.len() && 0 <= j < rest@.len() ==> picked[k] != rest@[j] as int,
                forall|i: int|
                    0 <= i < len ==> picked.contains(i) || rest@.contains(i as usize),
                forall|k: int, j: int|
                    0 <= k < picked.len() && 0 <= j < rest@.len() ==> !lex_lt(
                        #[trigger] s[picked[k]].created_at,
                        #[trigger] s[rest@[j] as int].created_at,
                    ),
                forall|k: int, l: int|
                    0 <= k < l < picked.len() ==> !lex_lt(
                        #[trigger] s[picked[k]].created_at,
                        #[trigger] s[picked[l]].created_at,
                    ),
            decreases count - out.len(),
        {
            let b = self.newest_among(&rest);
            let ghost old_rest = rest@;
            let ghost old_picked = picked;
            let idx = rest.remove(b);
            assert(self.records@[idx as int]@ == s[idx as int]);
            let t = decode_stored(&self.records[idx]);
            out.push(t);
            proof {
                picked = picked.push(idx as int);
                assert forall|k: int, j: int|
                    0 <= k < picked.len() && 0 <= j < rest@.len() implies !lex_lt(
                    #[trigger] s[picked[k]].created_at,
                    #[trigger] s[rest@[j] as int].created_at,
                ) by {
                    let j0 = if j < b { j } else { j + 1 };
                    assert(rest@[j] == old_rest[j0]);
                    if k < old_picked.len() {
                        assert(picked[k] == old_picked[k]);
                    }
                }
                assert forall|k: int, l: int| 0 <= k < l < picked.len() implies !lex_lt(
                    #[trigger] s[picked[k]].created_at,
                    #[trigger] s[picked[l]].created_at,
                ) by {
                    assert(picked[k] == old_picked[k]);
                    if l < old_picked.len() {
                        assert(picked[l] == old_picked[l]);
                    } else {
                        assert(picked[l] == old_rest[b as int]);
                    }
                }
                assert forall|k: int, j: int|
                    0 <= k < picked.len() && 0 <= j < rest@.len() implies picked[k]
                    != rest@[j] as int by {
                    let j0 = if j < b { j } else { j + 1 };
                    assert(rest@[j] == old_rest[j0]);
                    if k < old_picked.len() {
                        assert(picked[k] == old_picked[k]);
                    }
                }
                assert forall|j: int, m: int| 0 <= j < m < rest@.len() implies rest@[j]
                    != rest@[m] by {
                    let j0 = if j < b { j } else { j + 1 };
                    let m0 = if m < b { m } else { m + 1 };
                    assert(rest@[j] == old_rest[j0]);
                    assert(rest@[m] == old_rest[m0]);
                }
                assert forall|k: int, l: int| 0 <= k < l < picked.len() implies picked[k]
                    != picked[l] by {
                    assert(picked[k] == old_picked[k]);
                    if l < old_picked.len() {
                        assert(picked[l] == old_picked[l]);
                    }
                }
                assert forall|i: int| 0 <= i < len implies picked.contains(i)
                    || rest@.contains(i as usize) by {
                    if old_picked.contains(i) {
                        let k = choose|k: int| 0 <= k < old_picked.len() && old_picked[k] == i;
                        assert(picked[k] == i);
                    } else {
                        assert(old_rest.contains(i as usize));
                        let j = choose|j: int| 0 <= j < old_rest.len() && old_rest[j] == i as usize;
                        if j == b {
                            assert(picked[old_picked.len() as int] == i);
                        } else if j < b {
                            assert(rest@[j] == i as usize);
                        } else {
                            assert(rest@[j - 1] == i as usize);
                        }
                    }
                }
                assert forall|k: int| 0 <= k < out@.len() implies #[trigger] out@[k]@
                    == decode_view(s[picked[k]]) by {
                    if k < old_picked.len() {
                        assert(picked[k] == old_picked[k]);
                    }
                }
            }
        }
        proof {
            let ts = views_of(out@);
            assert forall|k: int| 0 <= k < ts.len() implies is_stored(s, #[trigger] ts[k]) by {
                assert(ts[k] == decode_view(s[picked[k]]));
            }
            assert forall|k: int, l: int| 0 <= k < l < ts.len() implies ts[k].id
                != ts[l].id by {
                assert(ts[k] == decode_view(s[picked[k]]));
                assert(ts[l] == decode_view(s[picked[l]]));
            }
            assert forall|k: int, l: int| 0 <= k < l < ts.len() implies !lex_lt(
                ts[k].created_at,
                ts[l].created_at,
            ) by {
                assert(ts[k] == decode_view(s[picked[k]]));
                assert(ts[l] == decode_view(s[picked[l]]));
            }
            assert forall|k: int, i: int|
                0 <= k < ts.len() && 0 <= i < s.len() && !holds_id(ts, s[i].id) implies !lex_lt(
                #[trigger] ts[k].created_at,
                #[trigger] s[i].created_at,
            ) by {
                assert(ts[k] == decode_view(s[picked[k]]));
                if picked.contains(i) {
                    let m = choose|m: int| 0 <= m < picked.len() && picked[m] == i;
                    assert(ts[m] == decode_view(s[picked[m]]));
                    assert(ts[m].id == s[i].id);
                } else {
                    let j = choose|j: int| 0 <= j < rest@.len() && rest@[j] == i as usize;
                    assert(s[rest@[j] as int] == s[i]);
                }
            }
        }
        out
    }

    /// A store holding the given records, put in one after another (a later
    /// record replaces an earlier one with its id), as when reading a table
    /// back from durable storage. Fails with `InvalidRecord` when a record
    /// holds a document that is not well-formed JSON.
    pub fn from_records(records: Vec<TweetRecord>) -> (r: Result<TweetStore, RepositoryError>)
        ensures
            match r {
                Ok(s) => {
                    &&& s.wf()
                    &&& forall|i: int| 0 <= i < records@.len() ==> decodable(#[trigger] records@[i]@)
                    &&& s@ == put_all(Seq::empty(), record_views(records@))
                },
                Err(e) => {
                    &&& e == RepositoryError::InvalidRecord
                    &&& exists|i: int| 0 <= i < records@.len() && !decodable(#[trigger] records@[i]@)
                },
            },
    {
        let ghost views = record_views(records@);
        let mut store = TweetStore::new();
        let mut i: usize = 0;
        proof {
            assert(views.take(0) =~= Seq::<RecordView>::empty());
        }
        while i < records.len()
            invariant
                i <= records@.len(),
                store.wf(),
                views == record_views(records@),
                forall|j: int| 0 <= j < i ==> decodable(#[trigger] records@[j]@),
                store@ == put_all(Seq::empty(), views.take(i as int)),
            decreases records.len() - i,
        {
            let rec = records[i].clone();
            assert(rec@ == views[i as int]);
            if !rec.is_readable() {
                return Err(RepositoryError::InvalidRecord);
            }
            store.put(rec);
            assert(views.take(i as int + 1).drop_last() =~= views.take(i as int));
            i = i + 1;
        }
        assert(views.take(i as int) =~= views);
        Ok(store)
    }

    /// Copies of the stored records, in store order.
    pub fn records(&self) -> (r: Vec<TweetRecord>)
        ensures
            record_views(r@) == self@,
    {
        let mut out: Vec<TweetRecord> = Vec::new();
        let mut i: usize = 0;
        while i < self.records.len()
            invariant
                i <= self.records@.len(),
                out@.len() == i,
                forall|j: int| 0 <= j < i ==> #[trigger] out@[j] == self.records@[j],
            decreases self.records.len() - i,
        {
            out.push(self.records[i].clone());
            i = i + 1;
        }
        assert(record_views(out@) =~= self@);
        out
    }
}

} // verus!