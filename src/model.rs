use vstd::prelude::*;

verus! {

/// Stable identifier of a post on the remote platform.
#[derive(Debug, PartialEq, Eq, Hash)]
pub struct TweetID(pub String);

impl Clone for TweetID {
    fn clone(&self) -> (r: TweetID)
        ensures
            r == *self,
    {
        TweetID(self.0.clone())
    }
}

impl From<TweetID> for String {
    fn from(tweet_id: TweetID) -> (r: String)
        ensures
            r == tweet_id.0,
    {
        tweet_id.0
    }
}

impl vstd::std_specs::convert::FromSpecImpl<TweetID> for String {
    open spec fn obeys_from_spec() -> bool {
        true
    }

    open spec fn from_spec(v: TweetID) -> String {
        v.0
    }
}

impl From<String> for TweetID {
    fn from(tweet_id: String) -> (r: TweetID)
        ensures
            r.0 == tweet_id,
    {
        TweetID(tweet_id)
    }
}

impl vstd::std_specs::convert::FromSpecImpl<String> for TweetID {
    open spec fn obeys_from_spec() -> bool {
        true
    }

    open spec fn from_spec(v: String) -> TweetID {
        TweetID(v)
    }
}

/// The view of an optional string.
pub open spec fn opt_view(o: Option<String>) -> Option<Seq<char>> {
    match o {
        Some(s) => Some(s@),
        None => None,
    }
}

/// Copies an optional string, keeping its value.
pub fn clone_opt(o: &Option<String>) -> (r: Option<String>)
    ensures
        r == *o,
{
    match o {
        Some(s) => Some(s.clone()),
        None => None,
    }
}

/// A post as the rest of the system sees it.
///
/// `entities`, `geo`, `referenced_tweets` and `withheld` are opaque documents
/// from the remote API, each held as its JSON text and never interpreted;
/// `referenced_tweets` is the JSON array of referenced posts, in its order;
/// a post whose referenced posts are not an array cannot be stored.
#[derive(Debug)]
pub struct Tweet {
    pub id: String,
    pub text: String,
    pub author_id: String,
    pub created_at: String,
    pub entities: Option<String>,
    pub geo: Option<String>,
    pub in_reply_to_user_id: Option<String>,
    pub lang: Option<String>,
    pub possibly_sensitive: Option<bool>,
    pub referenced_tweets: Option<String>,
    pub source: Option<String>,
    pub withheld: Option<String>,
}

/// The mathematical value of a [`Tweet`].
pub struct TweetView {
    pub id: Seq<char>,
    pub text: Seq<char>,
    pub author_id: Seq<char>,
    pub created_at: Seq<char>,
    pub entities: Option<Seq<char>>,
    pub geo: Option<Seq<char>>,
    pub in_reply_to_user_id: Option<Seq<char>>,
    pub lang: Option<Seq<char>>,
    pub possibly_sensitive: Option<bool>,
    pub referenced_tweets: Option<Seq<char>>,
    pub source: Option<Seq<char>>,
    pub withheld: Option<Seq<char>>,
}

impl View for Tweet {
    type V = TweetView;

    open spec fn view(&self) -> TweetView {
        TweetView {
            id: self.id@,
            text: self.text@,
            author_id: self.author_id@,
            created_at: self.created_at@,
            entities: opt_view(self.entities),
            geo: opt_view(self.geo),
            in_reply_to_user_id: opt_view(self.in_reply_to_user_id),
            lang: opt_view(self.lang),
            possibly_sensitive: self.possibly_sensitive,
            referenced_tweets: opt_view(self.referenced_tweets),
            source: opt_view(self.source),
            withheld: opt_view(self.withheld),
        }
    }
}

/// The views of a sequence of posts.
pub open spec fn views_of(ts: Seq<Tweet>) -> Seq<TweetView> {
    ts.map_values(|t: Tweet| t@)
}

impl Clone for Tweet {
    fn clone(&self) -> (r: Tweet)
        ensures
            r == *self,
    {
        Tweet {
            id: self.id.clone(),
            text: self.text.clone(),
            author_id: self.author_id.clone(),
            created_at: self.created_at.clone(),
            entities: clone_opt(&self.entities),
            geo: clone_opt(&self.geo),
            in_reply_to_user_id: clone_opt(&self.in_reply_to_user_id),
            lang: clone_opt(&self.lang),
            possibly_sensitive: self.possibly_sensitive,
            referenced_tweets: clone_opt(&self.referenced_tweets),
            source: clone_opt(&self.source),
            withheld: clone_opt(&self.withheld),
        }
    }
}

impl Tweet {
    pub fn new(
        id: String,
        text: String,
        author_id: String,
        created_at: String,
        entities: Option<String>,
        geo: Option<String>,
        in_reply_to_user_id: Option<String>,
        lang: Option<String>,
        possibly_sensitive: Option<bool>,
        referenced_tweets: Option<String>,
        source: Option<String>,
        withheld: Option<String>,
    ) -> (r: Tweet)
        ensures
            r.id == id,
            r.text == text,
            r.author_id == author_id,
            r.created_at == created_at,
            r.entities == entities,
            r.geo == geo,
            r.in_reply_to_user_id == in_reply_to_user_id,
            r.lang == lang,
            r.possibly_sensitive == possibly_sensitive,
            r.referenced_tweets == referenced_tweets,
            r.source == source,
            r.withheld == withheld,
    {
        Tweet {
            id,
            text,
            author_id,
            created_at,
            entities,
            geo,
            in_reply_to_user_id,
            lang,
            possibly_sensitive,
            referenced_tweets,
            source,
            withheld,
        }
    }
}

} // verus!
