use samuraicup::source::{bearer_header, hashtag_request, interpret_response, query_request};
use samuraicup::{CycleOutcome, SourceError, Tweet, TweetResponse, TweetResponseMeta, TweetStore};

fn tweet(id: &str, created_at: &str) -> Tweet {
    Tweet::new(
        id.to_string(),
        "text".to_string(),
        "author".to_string(),
        created_at.to_string(),
        None,
        None,
        None,
        Some("ja".to_string()),
        None,
        None,
        Some("web".to_string()),
        None,
    )
}

fn meta() -> TweetResponseMeta {
    TweetResponseMeta { newest_id: None, oldest_id: None, result_count: 0, next_token: None }
}

#[test]
fn cold_store_asks_without_cursor() {
    let s = TweetStore::new();
    let r = s.next_request("ワールドカップ");
    assert_eq!(r.query, "ワールドカップ -is:retweet");
    assert_eq!(r.since_id, None);
    assert_eq!(r.max_results, 10);
}

#[test]
fn warm_store_asks_after_newest_id() {
    let mut s = TweetStore::new();
    s.upsert(tweet("100", "2022-11-13T18:57:17.000Z")).unwrap();
    s.upsert(tweet("200", "2022-11-14T10:37:33.000Z")).unwrap();
    s.upsert(tweet("150", "2022-11-14T09:58:01.000Z")).unwrap();
    let r = s.next_request("cup");
    assert_eq!(r.query, "cup -is:retweet");
    assert_eq!(r.since_id, Some("200".to_string()));
}

#[test]
fn null_data_is_no_posts() {
    let env = TweetResponse { data: None, meta: Some(meta()) };
    assert!(interpret_response(200, Some(env)).unwrap().is_empty());
}

#[test]
fn response_errors() {
    assert_eq!(interpret_response(503, None).unwrap_err(), SourceError::Protocol(503));
    assert_eq!(interpret_response(200, None).unwrap_err(), SourceError::Malformed);
    let env = TweetResponse { data: Some(vec![tweet("1", "x")]), meta: None };
    assert_eq!(interpret_response(204, Some(env)).unwrap().len(), 1);
}

#[test]
fn requests_and_header() {
    assert_eq!(hashtag_request("rust").query, "#rust -is:retweet");
    assert_eq!(query_request("a").since_id, None);
    assert!(query_request("a").fields.contains("referenced_tweets"));
    assert_eq!(bearer_header("SECRET"), "Bearer SECRET");
}

#[test]
fn cycle_stores_or_reports() {
    let mut s = TweetStore::new();
    let out = s.ingest(Err(SourceError::Transport));
    assert_eq!(out, CycleOutcome::SourceFailed(SourceError::Transport));
    assert!(s.is_empty());
    let out = s.ingest(Ok(vec![tweet("1", "a"), tweet("2", "b")]));
    assert_eq!(out, CycleOutcome::Stored { count: 2 });
    assert_eq!(s.len(), 2);
    let out = s.ingest(Ok(vec![tweet("1", "a")]));
    assert_eq!(out, CycleOutcome::Stored { count: 1 });
    assert_eq!(s.len(), 2);
}

#[test]
fn app_context_starts_empty() {
    let app = samuraicup::new(samuraicup::Config {
        db_url: "tweets.db".to_string(),
        db_pool_size: 5,
        bearer_token: "t".to_string(),
    });
    assert!(app.services.tweet.tweet_repo.store.is_empty());
    assert_eq!(app.infras.db_pool_size, 5);
    assert_eq!(app.services.tweet.get_tweets_by_hashtag("x").query, "#x -is:retweet");
}

#[test]
fn watermark_follows_created_at() {
    let mut s = TweetStore::new();
    assert_eq!(s.watermark(), None);
    s.upsert(tweet("300", "2022-11-12T22:35:17.000Z")).unwrap();
    s.upsert(tweet("100", "2022-11-14T10:37:33.000Z")).unwrap();
    assert_eq!(s.watermark(), Some(samuraicup::TweetID("100".to_string())));
}
