use samuraicup::{RepositoryError, Tweet, TweetRecord};

fn sample() -> Tweet {
    Tweet::new(
        "1592104440001359873".to_string(),
        "hello".to_string(),
        "1299285051436273664".to_string(),
        "2022-11-14T10:37:33.000Z".to_string(),
        Some(r#"{"urls":[{"start":25,"end":48,"url":"https://t.co/x"}]}"#.to_string()),
        None,
        Some("42".to_string()),
        Some("ja".to_string()),
        Some(false),
        Some(r#"[{"type":"quoted","id":"1592094998769434627"}]"#.to_string()),
        Some("Twitter Web App".to_string()),
        Some("null".to_string()),
    )
}

#[test]
fn round_trip_keeps_every_field() {
    let t = sample();
    let rec = TweetRecord::from_model(t.clone()).unwrap();
    assert!(!rec.exported);
    let back = rec.to_model().unwrap();
    assert_eq!(back.id, t.id);
    assert_eq!(back.text, t.text);
    assert_eq!(back.author_id, t.author_id);
    assert_eq!(back.created_at, t.created_at);
    assert_eq!(back.entities, t.entities);
    assert_eq!(back.geo, None);
    assert_eq!(back.in_reply_to_user_id, t.in_reply_to_user_id);
    assert_eq!(back.lang, t.lang);
    assert_eq!(back.possibly_sensitive, Some(false));
    assert_eq!(back.referenced_tweets, t.referenced_tweets);
    assert_eq!(back.source, t.source);
    assert_eq!(back.withheld, Some("null".to_string()));
}

#[test]
fn missing_lang_and_source_are_stored_empty() {
    let mut t = sample();
    t.lang = None;
    t.source = None;
    let rec = TweetRecord::from_model(t).unwrap();
    assert_eq!(rec.lang, "");
    assert_eq!(rec.source, "");
    let back = rec.to_model().unwrap();
    assert_eq!(back.lang, Some(String::new()));
    assert_eq!(back.source, Some(String::new()));
}

#[test]
fn corrupt_document_is_rejected_on_encode() {
    let mut t = sample();
    t.geo = Some("{not json".to_string());
    assert_eq!(TweetRecord::from_model(t).unwrap_err(), RepositoryError::InvalidRecord);
}

#[test]
fn corrupt_document_is_rejected_on_decode() {
    let mut rec = TweetRecord::from_model(sample()).unwrap();
    rec.withheld = Some("[1, 2".to_string());
    assert_eq!(rec.to_model().unwrap_err(), RepositoryError::InvalidRecord);
}

#[test]
fn error_names_and_codes() {
    assert_eq!(RepositoryError::RecordNotFound.error_type(), "record_not_found");
    assert_eq!(RepositoryError::InvalidRecord.error_type(), "invalid_record");
    assert_eq!(RepositoryError::SerializationError.error_type(), "serialization_error");
    assert_eq!(RepositoryError::RecordNotFound.status_code(), 404);
    assert_eq!(RepositoryError::InvalidRecord.status_code(), 500);
    assert_eq!(samuraicup::DBExecutorError::DBError.error_type(), "db_error");
    assert_eq!(samuraicup::HttpClientError::HttpError.error_type(), "http_error");
    assert_eq!(samuraicup::HttpClientError::InvalidBody.error_type(), "invalid_body");
    assert_eq!(samuraicup::TweetRepoError::HttpClientError.error_type(), "http_client_error");
    assert_eq!(samuraicup::GeneralError::SerializationError.status_code(), 400);
    assert_eq!(samuraicup::GeneralError::InvalidAuthority.status_code(), 401);
    assert_eq!(samuraicup::GeneralError::InvalidAuthority.error_type(), "invalid_authority");
}

#[test]
fn tweet_id_converts_both_ways() {
    let id = samuraicup::TweetID::from("7".to_string());
    assert_eq!(id, samuraicup::TweetID("7".to_string()));
    let s: String = id.into();
    assert_eq!(s, "7");
}

#[test]
fn referenced_posts_must_be_an_array() {
    let mut t = sample();
    t.referenced_tweets = Some("{}".to_string());
    assert_eq!(TweetRecord::from_model(t).unwrap_err(), RepositoryError::InvalidRecord);
    let mut rec = TweetRecord::from_model(sample()).unwrap();
    rec.referenced_tweets = Some(r#"{"type":"quoted"}"#.to_string());
    assert!(!rec.is_readable());
    assert_eq!(rec.to_model().unwrap_err(), RepositoryError::InvalidRecord);
    let mut ok = sample();
    ok.referenced_tweets = Some("[]".to_string());
    assert!(TweetRecord::from_model(ok).is_ok());
}
