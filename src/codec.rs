use vstd::prelude::*;
use crate::errors::RepositoryError;
use crate::json::{check_json_array_text, check_json_text, is_json_array_text, is_json_text};
use crate::model::{clone_opt, opt_view, Tweet, TweetView};

verus! {

/// The flat form in which a post is stored: every opaque document as its
/// JSON text (absent when the post had none), `lang` and `source` required,
/// and an `exported` flag kept for export bookkeeping.
#[derive(Debug)]
pub struct TweetRecord {
    pub id: String,
    pub text: String,
    pub author_id: String,
    pub created_at: String,
    pub entities: Option<String>,
    pub geo: Option<String>,
    pub in_reply_to_user_id: Option<String>,
    pub lang: String,
    pub possibly_sensitive: Option<bool>,
    pub referenced_tweets: Option<String>,
    pub source: String,
    pub withheld: Option<String>,
    pub exported: bool,
}

/// The mathematical value of a [`TweetRecord`].
pub struct RecordView {
    pub id: Seq<char>,
    pub text: Seq<char>,
    pub author_id: Seq<char>,
    pub created_at: Seq<char>,
    pub entities: Option<Seq<char>>,
    pub geo: Option<Seq<char>>,
    pub in_reply_to_user_id: Option<Seq<char>>,
    pub lang: Seq<char>,
    pub possibly_sensitive: Option<bool>,
    pub referenced_tweets: Option<Seq<char>>,
    pub source: Seq<char>,
    pub withheld: Option<Seq<char>>,
    pub exported: bool,
}

impl View for TweetRecord {
    type V = RecordView;

    open spec fn view(&self) -> RecordView {
        RecordView {
            id: self.id@,
            text: self.text@,
            author_id: self.author_id@,
            created_at: self.created_at@,
            entities: opt_view(self.entities),
            geo: opt_view(self.geo),
            in_reply_to_user_id: opt_view(self.in_reply_to_user_id),
            lang: self.lang@,
            possibly_sensitive: self.possibly_sensitive,
            referenced_tweets: opt_view(self.referenced_tweets),
            source: self.source@,
            withheld: opt_view(self.withheld),
            exported: self.exported,
        }
    }
}

/// The views of a sequence of records.
pub open spec fn record_views(rs: Seq<TweetRecord>) -> Seq<RecordView> {
    rs.map_values(|x: TweetRecord| x@)
}

/// An optional opaque document is acceptable when absent or well-formed JSON.
pub open spec fn doc_ok(d: Option<Seq<char>>) -> bool {
    match d {
        Some(s) => is_json_text(s),
        None => true,
    }
}

/// An optional sequence of documents is acceptable when absent or a
/// well-formed JSON array.
pub open spec fn array_doc_ok(d: Option<Seq<char>>) -> bool {
    match d {
        Some(s) => is_json_array_text(s),
        None => true,
    }
}

/// Every opaque document of the post is acceptable.
pub open spec fn encodable(t: TweetView) -> bool {
    &&& doc_ok(t.entities)
    &&& doc_ok(t.geo)
    &&& array_doc_ok(t.referenced_tweets)
    &&& doc_ok(t.withheld)
}

/// Every opaque document of the record is acceptable.
pub open spec fn decodable(r: RecordView) -> bool {
    &&& doc_ok(r.entities)
    &&& doc_ok(r.geo)
    &&& array_doc_ok(r.referenced_tweets)
    &&& doc_ok(r.withheld)
}

/// A missing optional scalar is stored as the empty text.
pub open spec fn or_empty(o: Option<Seq<char>>) -> Seq<char> {
    match o {
        Some(s) => s,
        None => Seq::empty(),
    }
}

/// The record that stores a post.
pub open spec fn encode_view(t: TweetView) -> RecordView {
    RecordView {
        id: t.id,
        text: t.text,
        author_id: t.author_id,
        created_at: t.created_at,
        entities: t.entities,
        geo: t.geo,
        in_reply_to_user_id: t.in_reply_to_user_id,
        lang: or_empty(t.lang),
        possibly_sensitive: t.possibly_sensitive,
        referenced_tweets: t.referenced_tweets,
        source: or_empty(t.source),
        withheld: t.withheld,
        exported: false,
    }
}

/// The post that a record stores.
pub open spec fn decode_view(r: RecordView) -> TweetView {
    TweetView {
        id: r.id,
        text: r.text,
        author_id: r.author_id,
        created_at: r.created_at,
        entities: r.entities,
        geo: r.geo,
        in_reply_to_user_id: r.in_reply_to_user_id,
        lang: Some(r.lang),
        possibly_sensitive: r.possibly_sensitive,
        referenced_tweets: r.referenced_tweets,
        source: Some(r.source),
        withheld: r.withheld,
    }
}

/// Checks one optional opaque document.
fn check_doc(d: &Option<String>) -> (r: bool)
    ensures
        r == doc_ok(opt_view(*d)),
{
    match d {
        Some(s) => check_json_text(s.as_str()),
        None => true,
    }
}

/// Checks an optional sequence of documents.
fn check_array_doc(d: &Option<String>) -> (r: bool)
    ensures
        r == array_doc_ok(opt_view(*d)),
{
    match d {
        Some(s) => check_json_array_text(s.as_str()),
        None => true,
    }
}

fn or_empty_string(o: Option<String>) -> (r: String)
    ensures
        r@ == or_empty(opt_view(o)),
{
    match o {
        Some(s) => s,
        None => String::new(),
    }
}

impl Clone for TweetRecord {
    fn clone(&self) -> (r: TweetRecord)
        ensures
            r == *self,
    {
        TweetRecord {
            id: self.id.clone(),
            text: self.text.clone(),
            author_id: self.author_id.clone(),
            created_at: self.created_at.clone(),
            entities: clone_opt(&self.entities),
            geo: clone_opt(&self.geo),
            in_reply_to_user_id: clone_opt(&self.in_reply_to_user_id),
            lang: self.lang.clone(),
            possibly_sensitive: self.possibly_sensitive,
            referenced_tweets: clone_opt(&self.referenced_tweets),
            source: self.source.clone(),
            withheld: clone_opt(&self.withheld),
            exported: self.exported,
        }
    }
}

impl TweetRecord {
    /// Whether every stored document is well-formed JSON, the referenced
    /// posts a JSON array.
    pub fn is_readable(&self) -> (r: bool)
        ensures
            r == decodable(self@),
    {
        check_doc(&self.entities) && check_doc(&self.geo) && check_array_doc(
            &self.referenced_tweets,
        ) && check_doc(&self.withheld)
    }

    /// Restores the post that the record stores. Fails with `InvalidRecord`
    /// exactly when one of the stored documents is not well-formed JSON, or
    /// the referenced posts are not a JSON array.
    pub fn to_model(self) -> (r: Result<Tweet, RepositoryError>)
        ensures
            match r {
                Ok(t) => decodable(self@) && t@ == decode_view(self@),
                Err(e) => !decodable(self@) && e == RepositoryError::InvalidRecord,
            },
    {
        if !self.is_readable() {
            return Err(RepositoryError::InvalidRecord);
        }
        Ok(
            Tweet::new(
                self.id,
                self.text,
                self.author_id,
                self.created_at,
                self.entities,
                self.geo,
                self.in_reply_to_user_id,
                Some(self.lang),
                self.possibly_sensitive,
                self.referenced_tweets,
                Some(self.source),
                self.withheld,
            ),
        )
    }

    /// Builds the record that stores the post, not yet exported. Fails with
    /// `InvalidRecord` exactly when one of its documents is not well-formed
    /// JSON, or its referenced posts are not a JSON array.
    pub fn from_model(tweet: Tweet) -> (r: Result<TweetRecord, RepositoryError>)
        ensures
            match r {
                Ok(rec) => encodable(tweet@) && rec@ == encode_view(tweet@),
                Err(e) => !encodable(tweet@) && e == RepositoryError::InvalidRecord,
            },
    {
        if !check_doc(&tweet.entities) || !check_doc(&tweet.geo) || !check_array_doc(
            &tweet.referenced_tweets,
        ) || !check_doc(&tweet.withheld) {
            return Err(RepositoryError::InvalidRecord);
        }
        Ok(
            TweetRecord {
                id: tweet.id,
                text: tweet.text,
                author_id: tweet.author_id,
                created_at: tweet.created_at,
                entities: tweet.entities,
                geo: tweet.geo,
                in_reply_to_user_id: tweet.in_reply_to_user_id,
                lang: or_empty_string(tweet.lang),
                possibly_sensitive: tweet.possibly_sensitive,
                referenced_tweets: tweet.referenced_tweets,
                source: or_empty_string(tweet.source),
                withheld: tweet.withheld,
                exported: false,
            },
        )
    }
}

/// Storing a post and reading it back gives the same post, field for field,
/// opaque documents and absent optional fields included, whenever the post
/// can be stored and carries its `lang` and `source` (storage keeps those
/// two as required text).
pub proof fn lemma_round_trip(t: TweetView)
    requires
        encodable(t),
        t.lang is Some,
        t.source is Some,
    ensures
        decodable(encode_view(t)),
        decode_view(encode_view(t)) == t,
{
}

} // verus!
