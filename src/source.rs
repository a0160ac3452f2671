use vstd::prelude::*;
use crate::model::{Tweet, TweetID};

verus! {

/// Most posts asked for in one page.
pub const PAGE_SIZE: u32 = 10;

/// Lowest and one past the highest status code of a successful response.
pub const STATUS_SUCCESS_LOW: u16 = 200;
pub const STATUS_SUCCESS_END: u16 = 300;

/// The search expression for a term, retweets excluded.
pub open spec fn search_query(term: Seq<char>) -> Seq<char> {
    term + " -is:retweet"@
}

/// The search expression for a hashtag, retweets excluded.
pub open spec fn hashtag_query(tag: Seq<char>) -> Seq<char> {
    search_query("#"@ + tag)
}

/// The post fields asked of the remote API.
pub open spec fn requested_fields() -> Seq<char> {
    "author_id,created_at,entities,geo,in_reply_to_user_id,lang,possibly_sensitive,referenced_tweets,source,text,withheld"@
}

/// One page of a recent-posts search, as parameters of the request.
#[derive(Debug)]
pub struct SearchRequest {
    /// The search expression.
    pub query: String,
    /// Only posts newer than this id, when present.
    pub since_id: Option<String>,
    /// The post fields to return.
    pub fields: String,
    /// Page size.
    pub max_results: u32,
}

/// How a fetch from the remote API failed.
#[derive(Debug, PartialEq, Eq, Structural, Clone, Copy)]
pub enum SourceError {
    /// No response: connection, TLS or timeout.
    Transport,
    /// A response whose status is not a success; the status is kept.
    Protocol(u16),
    /// A body that is not the expected envelope.
    Malformed,
}

/// Paging details of a search response.
#[derive(Debug)]
pub struct TweetResponseMeta {
    pub newest_id: Option<String>,
    pub oldest_id: Option<String>,
    pub result_count: i64,
    pub next_token: Option<String>,
}

/// The envelope of a search response. Absent `data` means no results.
#[derive(Debug)]
pub struct TweetResponse {
    pub data: Option<Vec<Tweet>>,
    pub meta: Option<TweetResponseMeta>,
}

impl TweetResponse {
    /// The posts of the response: those of `data`, or none when `data` is
    /// absent or null.
    pub fn into_tweets(self) -> (r: Vec<Tweet>)
        ensures
            match self.data {
                Some(d) => r == d,
                None => r@.len() == 0,
            },
    {
        match self.data {
            Some(d) => d,
            None => Vec::new(),
        }
    }
}

fn fields_text() -> (r: String)
    ensures
        r@ == requested_fields(),
{
    String::from_str(
        "author_id,created_at,entities,geo,in_reply_to_user_id,lang,possibly_sensitive,referenced_tweets,source,text,withheld",
    )
}

fn query_text(term: &str) -> (r: String)
    ensures
        r@ == search_query(term@),
{
    let mut q = String::from_str(term);
    q.append(" -is:retweet");
    q
}

/// The request for the current page of posts matching `term`.
pub fn query_request(term: &str) -> (r: SearchRequest)
    ensures
        r.query@ == search_query(term@),
        r.since_id is None,
        r.fields@ == requested_fields(),
        r.max_results == PAGE_SIZE,
{
    SearchRequest { query: query_text(term), since_id: None, fields: fields_text(), max_results: PAGE_SIZE }
}

/// The request for the current page of posts carrying the hashtag `tag`.
pub fn hashtag_request(tag: &str) -> (r: SearchRequest)
    ensures
        r.query@ == hashtag_query(tag@),
        r.since_id is None,
        r.fields@ == requested_fields(),
        r.max_results == PAGE_SIZE,
{
    let mut t = String::from_str("#");
    t.append(tag);
    assert(t@ == "#"@ + tag@);
    SearchRequest {
        query: query_text(t.as_str()),
        since_id: None,
        fields: fields_text(),
        max_results: PAGE_SIZE,
    }
}

/// The request for posts matching `term` that are newer than `cursor`.
pub fn since_request(term: &str, cursor: &TweetID) -> (r: SearchRequest)
    ensures
        r.query@ == search_query(term@),
        r.since_id == Some(cursor.0),
        r.fields@ == requested_fields(),
        r.max_results == PAGE_SIZE,
{
    SearchRequest {
        query: query_text(term),
        since_id: Some(cursor.0.clone()),
        fields: fields_text(),
        max_results: PAGE_SIZE,
    }
}

/// The value of the authorization header for a bearer credential.
pub fn bearer_header(token: &str) -> (r: String)
    ensures
        r@ == "Bearer "@ + token@,
{
    let mut h = String::from_str("Bearer ");
    h.append(token);
    h
}

/// Whether a status code means success.
pub open spec fn is_success(status: u16) -> bool {
    STATUS_SUCCESS_LOW <= status < STATUS_SUCCESS_END
}

/// What a fetch returned, given the status of the response and its body as
/// an envelope (`None` when the body did not parse as one): a failing status
/// is a protocol error, an unparsable body a malformed response, and
/// otherwise the posts of the envelope, none when its `data` is absent.
pub fn interpret_response(status: u16, body: Option<TweetResponse>) -> (r: Result<
    Vec<Tweet>,
    SourceError,
>)
    ensures
        !is_success(status) ==> r == Err::<Vec<Tweet>, SourceError>(SourceError::Protocol(status)),
        is_success(status) ==> match body {
            None => r == Err::<Vec<Tweet>, SourceError>(SourceError::Malformed),
            Some(env) => match env.data {
                Some(d) => r == Ok::<Vec<Tweet>, SourceError>(d),
                None => r matches Ok(v) && v@.len() == 0,
            },
        },
{
    if status < STATUS_SUCCESS_LOW || status >= STATUS_SUCCESS_END {
        return Err(SourceError::Protocol(status));
    }
    match body {
        None => Err(SourceError::Malformed),
        Some(env) => Ok(env.into_tweets()),
    }
}

} // verus!
