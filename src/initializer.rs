use vstd::prelude::*;
use crate::codec::{decode_view, encodable, RecordView};
use crate::errors::RepositoryError;
use crate::model::{views_of, Tweet};
use crate::source::{hashtag_query, hashtag_request, requested_fields, SearchRequest, PAGE_SIZE};
use crate::store::{BatchError, TweetStore};
use crate::table::{matching, upserted_all};

verus! {

/// Settings read once at start-up and handed to the components.
#[derive(Debug)]
pub struct Config {
    pub db_url: String,
    pub db_pool_size: u32,
    pub bearer_token: String,
}

/// The outside resources the components are built on.
#[derive(Debug)]
pub struct Infras {
    pub db_url: String,
    pub db_pool_size: u32,
    pub bearer_token: String,
}

/// Persistence and the credential for the remote API, together.
pub struct TweetRepository {
    pub store: TweetStore,
    pub bearer_token: String,
}

impl TweetRepository {
    pub fn new(store: TweetStore, bearer_token: String) -> (r: TweetRepository)
        ensures
            r.store == store,
            r.bearer_token == bearer_token,
    {
        TweetRepository { store, bearer_token }
    }
}

/// The repositories of the application.
pub struct Repository {
    pub tweet: TweetRepository,
}

/// Use cases over posts.
pub struct TweetService {
    pub tweet_repo: TweetRepository,
}

impl TweetService {
    pub fn new(tweet_repo: TweetRepository) -> (r: TweetService)
        ensures
            r.tweet_repo == tweet_repo,
    {
        TweetService { tweet_repo }
    }

    /// Stored posts whose text contains `query`.
    pub fn search(&self, query: &str) -> (r: Vec<Tweet>)
        requires
            self.tweet_repo.store.wf(),
        ensures
            r@.len() == matching(self.tweet_repo.store@, query@).len(),
            forall|k: int|
                0 <= k < r@.len() ==> #[trigger] r@[k]@ == decode_view(
                    matching(self.tweet_repo.store@, query@)[k],
                ),
    {
        self.tweet_repo.store.search(query)
    }

    /// The request that fetches the current page of posts with the hashtag.
    pub fn get_tweets_by_hashtag(&self, hashtag: &str) -> (r: SearchRequest)
        ensures
            r.query@ == hashtag_query(hashtag@),
            r.since_id is None,
            r.fields@ == requested_fields(),
            r.max_results == PAGE_SIZE,
    {
        hashtag_request(hashtag)
    }

    /// Stores the posts in order, stopping at the first that cannot be stored.
    pub fn save_tweets(&mut self, tweets: Vec<Tweet>) -> (r: Result<(), BatchError>)
        requires
            old(self).tweet_repo.store.wf(),
        ensures
            final(self).tweet_repo.store.wf(),
            final(self).tweet_repo.bearer_token == old(self).tweet_repo.bearer_token,
            match r {
                Ok(()) => {
                    &&& forall|i: int| 0 <= i < tweets@.len() ==> encodable(#[trigger] tweets@[i]@)
                    &&& final(self).tweet_repo.store@ == upserted_all(
                        old(self).tweet_repo.store@,
                        views_of(tweets@),
                    )
                },
                Err(e) => {
                    &&& e.index < tweets@.len()
                    &&& e.error == RepositoryError::InvalidRecord
                    &&& !encodable(tweets@[e.index as int]@)
                    &&& forall|i: int| 0 <= i < e.index ==> encodable(#[trigger] tweets@[i]@)
                    &&& final(self).tweet_repo.store@ == upserted_all(
                        old(self).tweet_repo.store@,
                        views_of(tweets@).take(e.index as int),
                    )
                },
            },
    {
        self.tweet_repo.store.upsert_batch(tweets)
    }
}

/// The services of the application.
pub struct Services {
    pub tweet: TweetService,
}

/// Everything the application runs on.
pub struct AppContext {
    pub infras: Infras,
    pub services: Services,
}

/// The resources described by the configuration.
pub fn infras(config: &Config) -> (r: Infras)
    ensures
        r.db_url == config.db_url,
        r.db_pool_size == config.db_pool_size,
        r.bearer_token == config.bearer_token,
{
    Infras {
        db_url: config.db_url.clone(),
        db_pool_size: config.db_pool_size,
        bearer_token: config.bearer_token.clone(),
    }
}

/// The repositories over the resources: an empty store and the credential.
pub fn repository(infras: &Infras) -> (r: Repository)
    ensures
        r.tweet.store.wf(),
        r.tweet.store@ == Seq::<RecordView>::empty(),
        r.tweet.bearer_token == infras.bearer_token,
{
    let tweet = TweetRepository::new(TweetStore::new(), infras.bearer_token.clone());
    Repository { tweet }
}

/// The application assembled from its configuration.
pub fn new(config: Config) -> (r: AppContext)
    ensures
        r.infras.db_url == config.db_url,
        r.infras.db_pool_size == config.db_pool_size,
        r.infras.bearer_token == config.bearer_token,
        r.services.tweet.tweet_repo.store.wf(),
        r.services.tweet.tweet_repo.store@ == Seq::<RecordView>::empty(),
        r.services.tweet.tweet_repo.bearer_token == config.bearer_token,
{
    let infras = infras(&config);
    let repository = repository(&infras);
    let services = Services { tweet: TweetService::new(repository.tweet) };
    AppContext { infras, services }
}

} // verus!
