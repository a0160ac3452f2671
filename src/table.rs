use vstd::prelude::*;
use crate::codec::{decodable, decode_view, encode_view, encodable, RecordView};
use crate::order::lex_lt;
use crate::model::TweetView;

verus! {

/// Position of the first record with the given id at or after `i`, or -1.
pub open spec fn find_from(s: Seq<RecordView>, id: Seq<char>, i: int) -> int
    decreases s.len() - i,
{
    if i < 0 || i >= s.len() {
        -1
    } else if s[i].id == id {
        i
    } else {
        find_from(s, id, i + 1)
    }
}

/// Position of the record with the given id, or -1 when there is none.
pub open spec fn find(s: Seq<RecordView>, id: Seq<char>) -> int {
    find_from(s, id, 0)
}

/// No two records share an id.
pub open spec fn ids_distinct(s: Seq<RecordView>) -> bool {
    forall|i: int, j: int| 0 <= i < j < s.len() ==> s[i].id != s[j].id
}

/// What a well-formed table holds: unique ids, readable records.
pub open spec fn table_wf(s: Seq<RecordView>) -> bool {
    &&& ids_distinct(s)
    &&& forall|i: int| 0 <= i < s.len() ==> decodable(#[trigger] s[i])
}

/// The table after inserting `r`, or replacing the record with its id in place.
pub open spec fn upserted(s: Seq<RecordView>, r: RecordView) -> Seq<RecordView> {
    let k = find(s, r.id);
    if k >= 0 {
        s.update(k, r)
    } else {
        s.push(r)
    }
}

/// The table after storing each post of `ts` in turn.
pub open spec fn upserted_all(s: Seq<RecordView>, ts: Seq<TweetView>) -> Seq<RecordView>
    decreases ts.len(),
{
    if ts.len() == 0 {
        s
    } else {
        upserted(upserted_all(s, ts.drop_last()), encode_view(ts.last()))
    }
}

/// The table after putting each record of `rs` in turn.
pub open spec fn put_all(s: Seq<RecordView>, rs: Seq<RecordView>) -> Seq<RecordView>
    decreases rs.len(),
{
    if rs.len() == 0 {
        s
    } else {
        upserted(put_all(s, rs.drop_last()), rs.last())
    }
}

/// The table without the record of the given id, if there is one.
pub open spec fn removed(s: Seq<RecordView>, id: Seq<char>) -> Seq<RecordView> {
    let k = find(s, id);
    if k >= 0 {
        s.remove(k)
    } else {
        s
    }
}

/// `q` occurs in `t` as a contiguous run of characters.
pub open spec fn text_has(t: Seq<char>, q: Seq<char>) -> bool {
    exists|i: int| 0 <= i && i + q.len() <= t.len() && #[trigger] t.subrange(i, i + q.len()) == q
}

/// The records whose text contains `q`, in table order.
pub open spec fn matching(s: Seq<RecordView>, q: Seq<char>) -> Seq<RecordView>
    decreases s.len(),
{
    if s.len() == 0 {
        Seq::empty()
    } else {
        let m = matching(s.drop_last(), q);
        if text_has(s.last().text, q) {
            m.push(s.last())
        } else {
            m
        }
    }
}

/// Some post of `ts` has the id.
pub open spec fn holds_id(ts: Seq<TweetView>, id: Seq<char>) -> bool {
    exists|k: int| 0 <= k < ts.len() && #[trigger] ts[k].id == id
}

/// The post is what some record of the table reads back as.
pub open spec fn is_stored(s: Seq<RecordView>, t: TweetView) -> bool {
    exists|i: int| 0 <= i < s.len() && t == decode_view(#[trigger] s[i])
}

/// `ts` are the `n` most recently created posts of the table (all of them
/// when it holds fewer), newest first: distinct stored posts, in
/// non-increasing `created_at` order, none of them older than any post left
/// out.
pub open spec fn is_latest(ts: Seq<TweetView>, s: Seq<RecordView>, n: nat) -> bool {
    &&& ts.len() == (if n < s.len() { n } else { s.len() })
    &&& forall|k: int| 0 <= k < ts.len() ==> is_stored(s, #[trigger] ts[k])
    &&& forall|k: int, l: int| 0 <= k < l < ts.len() ==> ts[k].id != ts[l].id
    &&& forall|k: int, l: int|
        0 <= k < l < ts.len() ==> !lex_lt(ts[k].created_at, ts[l].created_at)
    &&& forall|k: int, i: int|
        0 <= k < ts.len() && 0 <= i < s.len() && !holds_id(ts, s[i].id) ==> !lex_lt(
            #[trigger] ts[k].created_at,
            #[trigger] s[i].created_at,
        )
}

pub proof fn lemma_find_from(s: Seq<RecordView>, id: Seq<char>, i: int)
    requires
        0 <= i,
    ensures
        find_from(s, id, i) == -1 ==> forall|j: int| i <= j < s.len() ==> s[j].id != id,
        find_from(s, id, i) != -1 ==> {
            &&& i <= find_from(s, id, i) < s.len()
            &&& s[find_from(s, id, i)].id == id
            &&& forall|j: int| i <= j < find_from(s, id, i) ==> s[j].id != id
        },
    decreases s.len() - i,
{
    if i < s.len() && s[i].id != id {
        lemma_find_from(s, id, i + 1);
    }
}

/// The facts about `find`: -1 when no record has the id, otherwise the first
/// position that has it.
pub proof fn lemma_find(s: Seq<RecordView>, id: Seq<char>)
    ensures
        find(s, id) == -1 ==> forall|j: int| 0 <= j < s.len() ==> s[j].id != id,
        find(s, id) != -1 ==> {
            &&& 0 <= find(s, id) < s.len()
            &&& s[find(s, id)].id == id
            &&& forall|j: int| 0 <= j < find(s, id) ==> s[j].id != id
        },
{
    lemma_find_from(s, id, 0);
}

proof fn lemma_find_first_from(s: Seq<RecordView>, id: Seq<char>, i: int, k: int)
    requires
        0 <= i <= k < s.len(),
        s[k].id == id,
        forall|j: int| i <= j < k ==> s[j].id != id,
    ensures
        find_from(s, id, i) == k,
    decreases k - i,
{
    if i < k {
        lemma_find_first_from(s, id, i + 1, k);
    }
}

/// `find` gives the first position that holds the id.
pub proof fn lemma_find_first(s: Seq<RecordView>, id: Seq<char>, k: int)
    requires
        0 <= k < s.len(),
        s[k].id == id,
        forall|j: int| 0 <= j < k ==> s[j].id != id,
    ensures
        find(s, id) == k,
{
    lemma_find_first_from(s, id, 0, k);
}

/// Storing a readable record keeps the table well-formed.
pub proof fn lemma_upserted_wf(s: Seq<RecordView>, r: RecordView)
    requires
        table_wf(s),
        decodable(r),
    ensures
        table_wf(upserted(s, r)),
{
    lemma_find(s, r.id);
    let t = upserted(s, r);
    assert forall|i: int, j: int| 0 <= i < j < t.len() implies t[i].id != t[j].id by {
        if find(s, r.id) == -1 && j == s.len() {
            assert(t[j] == r);
        }
    }
}

/// Removing a record keeps the table well-formed.
pub proof fn lemma_removed_wf(s: Seq<RecordView>, id: Seq<char>)
    requires
        table_wf(s),
    ensures
        table_wf(removed(s, id)),
{
    lemma_find(s, id);
    let k = find(s, id);
    if k >= 0 {
        let t = s.remove(k);
        assert forall|i: int, j: int| 0 <= i < j < t.len() implies t[i].id != t[j].id by {
            let i0 = if i < k { i } else { i + 1 };
            let j0 = if j < k { j } else { j + 1 };
            assert(t[i] == s[i0]);
            assert(t[j] == s[j0]);
        }
        assert forall|i: int| 0 <= i < t.len() implies decodable(#[trigger] t[i]) by {
            let i0 = if i < k { i } else { i + 1 };
            assert(t[i] == s[i0]);
        }
    }
}

/// Storing the same post twice leaves the table as storing it once does.
pub proof fn lemma_upsert_idempotent(s: Seq<RecordView>, t: TweetView)
    requires
        encodable(t),
    ensures
        upserted(upserted(s, encode_view(t)), encode_view(t)) == upserted(s, encode_view(t)),
{
    let r = encode_view(t);
    let s1 = upserted(s, r);
    lemma_find(s, r.id);
    let k = find(s, r.id);
    if k >= 0 {
        lemma_find_first(s1, r.id, k);
        assert(s1.update(k, r) =~= s1);
    } else {
        lemma_find_first(s1, r.id, s.len() as int);
        assert(s1.update(s.len() as int, r) =~= s1);
    }
}

/// The table holds `rv` as the record of `id`.
pub open spec fn stored_as(s: Seq<RecordView>, id: Seq<char>, rv: RecordView) -> bool {
    find(s, id) >= 0 && s[find(s, id)] == rv
}

/// Storing a record leaves the records of other ids as they were.
pub proof fn lemma_upserted_keeps_others(
    s: Seq<RecordView>,
    r: RecordView,
    id: Seq<char>,
    rv: RecordView,
)
    requires
        stored_as(s, id, rv),
        id != r.id,
    ensures
        stored_as(upserted(s, r), id, rv),
{
    lemma_find(s, r.id);
    lemma_find(s, id);
    let j = find(s, id);
    let t = upserted(s, r);
    assert(t[j] == s[j]);
    assert forall|m: int| 0 <= m < j implies t[m].id != id by {
        assert(t[m].id == s[m].id || t[m] == r);
    }
    lemma_find_first(t, id, j);
}

/// A stored record is the record of its id.
pub proof fn lemma_upserted_holds(s: Seq<RecordView>, r: RecordView)
    ensures
        stored_as(upserted(s, r), r.id, r),
{
    lemma_find(s, r.id);
    let k = find(s, r.id);
    let t = upserted(s, r);
    if k >= 0 {
        lemma_find_first(t, r.id, k);
    } else {
        lemma_find_first(t, r.id, s.len() as int);
    }
}

/// After storing the first `k` posts of a batch whose ids are distinct,
/// each of them is stored as its own record, whatever the table held before.
pub proof fn lemma_batch_prefix_stored(s: Seq<RecordView>, ts: Seq<TweetView>, k: int, i: int)
    requires
        0 <= i < k <= ts.len(),
        forall|a: int, b: int| 0 <= a < b < ts.len() ==> ts[a].id != ts[b].id,
    ensures
        stored_as(upserted_all(s, ts.take(k)), ts[i].id, encode_view(ts[i])),
    decreases k,
{
    let pre = ts.take(k);
    assert(pre.drop_last() =~= ts.take(k - 1));
    assert(pre.last() == ts[k - 1]);
    if i == k - 1 {
        lemma_upserted_holds(upserted_all(s, ts.take(k - 1)), encode_view(ts[k - 1]));
    } else {
        lemma_batch_prefix_stored(s, ts, k - 1, i);
        lemma_upserted_keeps_others(
            upserted_all(s, ts.take(k - 1)),
            encode_view(ts[k - 1]),
            ts[i].id,
            encode_view(ts[i]),
        );
    }
}

/// Deleting an id that no record holds leaves the table as it was.
pub proof fn lemma_delete_absent(s: Seq<RecordView>, id: Seq<char>)
    requires
        forall|j: int| 0 <= j < s.len() ==> s[j].id != id,
    ensures
        removed(s, id) == s,
{
    lemma_find(s, id);
}

} // verus!
