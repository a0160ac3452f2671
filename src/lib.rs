//! Harvesting of short posts from a remote search API into a local store:
//! the storage codec, the idempotent store, the requests made to the remote
//! source and the watermark that decides between a cold and an incremental
//! fetch.
pub mod codec;
pub mod errors;
pub mod ingest;
pub mod initializer;
pub mod json;
pub mod model;
pub mod order;
pub mod source;
pub mod store;
pub mod table;

pub use codec::TweetRecord;
pub use errors::{DBExecutorError, GeneralError, HttpClientError, RepositoryError, TweetRepoError};
pub use ingest::CycleOutcome;
pub use initializer::{
    infras, new, repository, AppContext, Config, Infras, Repository, Services, TweetRepository,
    TweetService,
};
pub use model::{Tweet, TweetID};
pub use source::{SearchRequest, SourceError, TweetResponse, TweetResponseMeta};
pub use store::{BatchError, TweetStore};
