use samuraicup::{BatchError, RepositoryError, Tweet, TweetID, TweetStore};

fn tweet(id: &str, text: &str, created_at: &str) -> Tweet {
    Tweet::new(
        id.to_string(),
        text.to_string(),
        "author".to_string(),
        created_at.to_string(),
        Some("{}".to_string()),
        None,
        None,
        Some("en".to_string()),
        None,
        None,
        Some("web".to_string()),
        None,
    )
}

fn ids(ts: &[Tweet]) -> Vec<String> {
    ts.iter().map(|t| t.id.clone()).collect()
}

#[test]
fn upsert_twice_is_upsert_once() {
    let mut once = TweetStore::new();
    once.upsert(tweet("1", "a", "2022-11-14T10:00:00.000Z")).unwrap();
    let mut twice = TweetStore::new();
    twice.upsert(tweet("1", "a", "2022-11-14T10:00:00.000Z")).unwrap();
    twice.upsert(tweet("1", "a", "2022-11-14T10:00:00.000Z")).unwrap();
    assert_eq!(once.len(), 1);
    assert_eq!(twice.len(), 1);
    assert_eq!(ids(&twice.search("")), ids(&once.search("")));
    assert_eq!(twice.find_by_id(&TweetID("1".to_string())).unwrap().text, "a");
}

#[test]
fn upsert_replaces_in_place() {
    let mut s = TweetStore::new();
    s.upsert(tweet("1", "old", "2022-11-14T10:00:00.000Z")).unwrap();
    s.upsert(tweet("2", "other", "2022-11-14T11:00:00.000Z")).unwrap();
    s.upsert(tweet("1", "new", "2022-11-14T10:00:00.000Z")).unwrap();
    assert_eq!(s.len(), 2);
    assert_eq!(s.find_by_id(&TweetID("1".to_string())).unwrap().text, "new");
    assert_eq!(ids(&s.search("")), vec!["1".to_string(), "2".to_string()]);
}

#[test]
fn search_is_case_sensitive_substring() {
    let mut s = TweetStore::new();
    s.upsert(tweet("1", "World Cup!", "2022-11-14T10:00:00.000Z")).unwrap();
    s.upsert(tweet("2", "no match", "2022-11-14T11:00:00.000Z")).unwrap();
    s.upsert(tweet("3", "Cupcake", "2022-11-14T12:00:00.000Z")).unwrap();
    assert_eq!(ids(&s.search("Cup")), vec!["1".to_string(), "3".to_string()]);
    assert!(s.search("cup").is_empty());
    assert_eq!(ids(&s.search("match")), vec!["2".to_string()]);
}

#[test]
fn find_missing_is_record_not_found() {
    let s = TweetStore::new();
    assert_eq!(
        s.find_by_id(&TweetID("9".to_string())).unwrap_err(),
        RepositoryError::RecordNotFound
    );
}

#[test]
fn delete_missing_succeeds() {
    let mut s = TweetStore::new();
    s.upsert(tweet("1", "a", "2022-11-14T10:00:00.000Z")).unwrap();
    assert!(s.delete(&TweetID("2".to_string())).is_ok());
    assert_eq!(s.len(), 1);
    assert!(s.delete(&TweetID("1".to_string())).is_ok());
    assert!(s.is_empty());
    assert!(s.delete(&TweetID("1".to_string())).is_ok());
}

#[test]
fn batch_stops_at_first_bad_post() {
    let mut s = TweetStore::new();
    let mut bad = tweet("2", "b", "2022-11-14T11:00:00.000Z");
    bad.entities = Some("{broken".to_string());
    let batch = vec![
        tweet("1", "a", "2022-11-14T10:00:00.000Z"),
        bad,
        tweet("3", "c", "2022-11-14T12:00:00.000Z"),
    ];
    let err = s.upsert_batch(batch).unwrap_err();
    assert_eq!(err, BatchError { index: 1, error: RepositoryError::InvalidRecord });
    assert!(s.find_by_id(&TweetID("1".to_string())).is_ok());
    assert!(s.find_by_id(&TweetID("2".to_string())).is_err());
    assert!(s.find_by_id(&TweetID("3".to_string())).is_err());
}

#[test]
fn latest_orders_newest_first() {
    let mut s = TweetStore::new();
    assert!(s.latest(1).is_empty());
    s.upsert(tweet("1", "a", "2022-11-13T18:57:17.000Z")).unwrap();
    s.upsert(tweet("2", "b", "2022-11-14T10:37:33.000Z")).unwrap();
    s.upsert(tweet("3", "c", "2022-11-12T22:35:17.000Z")).unwrap();
    s.upsert(tweet("4", "d", "2022-11-14T09:58:01.000Z")).unwrap();
    assert_eq!(ids(&s.latest(1)), vec!["2".to_string()]);
    assert_eq!(ids(&s.latest(3)), vec!["2".to_string(), "4".to_string(), "1".to_string()]);
    assert_eq!(s.latest(10).len(), 4);
    assert!(s.latest(0).is_empty());
}

#[test]
fn records_rebuild_the_same_store() {
    let mut s = TweetStore::new();
    s.upsert(tweet("1", "a", "2022-11-14T10:00:00.000Z")).unwrap();
    s.upsert(tweet("2", "b", "2022-11-14T11:00:00.000Z")).unwrap();
    let recs = s.records();
    assert_eq!(recs.len(), 2);
    assert!(recs.iter().all(|r| r.is_readable()));
    let again = TweetStore::from_records(recs).unwrap();
    assert_eq!(ids(&again.search("")), vec!["1".to_string(), "2".to_string()]);
    assert_eq!(again.find_by_id(&TweetID("2".to_string())).unwrap().text, "b");
}

#[test]
fn unreadable_record_is_refused_on_restore() {
    let mut s = TweetStore::new();
    s.upsert(tweet("1", "a", "2022-11-14T10:00:00.000Z")).unwrap();
    let mut recs = s.records();
    recs[0].geo = Some("{".to_string());
    assert!(!recs[0].is_readable());
    assert_eq!(TweetStore::from_records(recs).err(), Some(RepositoryError::InvalidRecord));
}
