use channel_helper::database::{Database, StoreError};
use channel_helper::models::MediaType;

fn seed_photo(db: &mut Database, id: u128, hash: &str, chat: i64, msg: i32, now: i64) {
    db.create_post_with_id(
        id,
        MediaType::Photo,
        format!("file-{}", id),
        Some(hash.to_string()),
        chat,
        msg,
        now,
    )
    .expect("insert should succeed");
}

#[test]
fn hash_exists_iff_non_deleted_post_has_it() {
    let mut db = Database::new();
    assert!(!db.post_with_hash_exists("h1"));

    seed_photo(&mut db, 1, "h1", 100, 1, 1000);
    assert!(db.post_with_hash_exists("h1"));
    assert!(!db.post_with_hash_exists("h2"));

    // Soft delete removes the post from the dedup lookup...
    db.delete_post(1);
    assert!(!db.post_with_hash_exists("h1"));
    assert!(db.get_post_by_hash("h1").is_none());

    // ...but the row is retained: the identifier is still in use.
    let again = db.create_post_with_id(
        1,
        MediaType::Photo,
        "file-x".to_string(),
        Some("h1".to_string()),
        100,
        2,
        1001,
    );
    assert!(matches!(again, Err(StoreError::IdConflict)));
}

#[test]
fn get_post_by_hash_returns_matching_post() {
    let mut db = Database::new();
    seed_photo(&mut db, 1, "h1", 100, 1, 1000);
    seed_photo(&mut db, 2, "h2", 100, 2, 1001);

    let p = db.get_post_by_hash("h2").expect("hash is present");
    assert_eq!(p.id, 2);
    assert_eq!(p.image_hash.as_deref(), Some("h2"));
    assert!(!p.deleted);
}

#[test]
fn mark_sent_posts_is_idempotent() {
    let mut db = Database::new();
    seed_photo(&mut db, 1, "h1", 100, 1, 1000);
    seed_photo(&mut db, 2, "h2", 100, 2, 1001);
    assert_eq!(db.unsent_posts_count(), 2);

    let ids = vec![1u128];
    db.mark_sent_posts(&ids, 2000);
    assert_eq!(db.unsent_posts_count(), 1);
    let sent_at = db.get_post_by_hash("h1").unwrap().sent_datetime;
    assert_eq!(sent_at, Some(2000));

    // Re-marking changes nothing: still sent, and the sent timestamp is
    // not overwritten by the later clock reading.
    db.mark_sent_posts(&ids, 9000);
    assert_eq!(db.unsent_posts_count(), 1);
    let p = db.get_post_by_hash("h1").unwrap();
    assert!(p.is_sent);
    assert_eq!(p.sent_datetime, Some(2000));
}

#[test]
fn delete_post_excludes_from_all_reads_but_keeps_row() {
    let mut db = Database::new();
    seed_photo(&mut db, 7, "h7", 100, 1, 1000);
    assert_eq!(db.unsent_posts_count(), 1);
    assert!(db.fetch_unsent_post(0).is_some());
    assert!(db.fetch_post_by_message_id(100, 1).is_some());

    db.delete_post(7);
    assert_eq!(db.unsent_posts_count(), 0);
    assert!(db.fetch_unsent_post(0).is_none());
    assert!(db.get_post_by_hash("h7").is_none());
    assert!(db.fetch_post_by_message_id(100, 1).is_none());

    // Idempotent, and the row still occupies its identifier.
    db.delete_post(7);
    let again = db.create_post_with_id(
        7,
        MediaType::Video,
        "v".to_string(),
        None,
        100,
        3,
        1002,
    );
    assert!(matches!(again, Err(StoreError::IdConflict)));
}

#[test]
fn duplicate_message_location_is_refused() {
    let mut db = Database::new();
    seed_photo(&mut db, 1, "h1", 100, 1, 1000);

    let r = db.add_message_id_for_post(1, 100, 1);
    assert!(matches!(r, Err(StoreError::LocationConflict)));
    let r2 = db.add_message_id_for_post(1, 100, 2);
    assert!(r2.is_ok());

    // A second post at an already recorded location is refused whole:
    // neither the post nor the location is inserted.
    let r3 = db.create_post_with_id(
        2,
        MediaType::Photo,
        "f2".to_string(),
        Some("h2".to_string()),
        100,
        1,
        1001,
    );
    assert!(matches!(r3, Err(StoreError::LocationConflict)));
    assert!(!db.post_with_hash_exists("h2"));
}

#[test]
fn fetch_unsent_post_honors_pick_and_eligibility() {
    let mut db = Database::new();
    assert!(db.fetch_unsent_post(3).is_none());

    seed_photo(&mut db, 1, "h1", 100, 1, 1000);
    seed_photo(&mut db, 2, "h2", 100, 2, 1001);
    seed_photo(&mut db, 3, "h3", 100, 3, 1002);

    // pick selects among the eligible posts in store order, modulo count.
    assert_eq!(db.fetch_unsent_post(0).unwrap().id, 1);
    assert_eq!(db.fetch_unsent_post(1).unwrap().id, 2);
    assert_eq!(db.fetch_unsent_post(5).unwrap().id, 3);

    db.mark_sent_posts(&vec![1u128, 3u128], 2000);
    assert_eq!(db.fetch_unsent_post(4).unwrap().id, 2);
}

#[test]
fn fetch_ten_returns_distinct_unsent_photos() {
    let mut db = Database::new();
    for i in 0..12u128 {
        seed_photo(&mut db, i + 1, &format!("h{}", i + 1), 100, (i + 1) as i32, 1000);
    }
    // A video and a sent photo are never selected.
    db.create_post_with_id(100, MediaType::Video, "v".to_string(), None, 200, 1, 1000)
        .unwrap();
    db.mark_sent_posts(&vec![5u128], 2000);

    let batch = db.fetch_ten_unsent_photo_posts(4);
    assert_eq!(batch.len(), 10);
    let mut ids: Vec<u128> = batch.iter().map(|p| p.id).collect();
    ids.sort();
    ids.dedup();
    assert_eq!(ids.len(), 10);
    for p in &batch {
        assert!(matches!(p.media_type, MediaType::Photo));
        assert!(!p.is_sent);
        assert_ne!(p.id, 5);
        assert_ne!(p.id, 100);
    }

    // With fewer than ten eligible photos, all of them come back.
    let mut small = Database::new();
    seed_photo(&mut small, 1, "a", 100, 1, 1000);
    seed_photo(&mut small, 2, "b", 100, 2, 1001);
    assert_eq!(small.fetch_ten_unsent_photo_posts(9).len(), 2);
}

#[test]
fn fetch_post_by_message_id_follows_the_association() {
    let mut db = Database::new();
    seed_photo(&mut db, 1, "h1", 100, 1, 1000);
    db.add_message_id_for_post(1, 300, 77).unwrap();

    // Both the origin and the added location resolve to the same post.
    assert_eq!(db.fetch_post_by_message_id(100, 1).unwrap().id, 1);
    assert_eq!(db.fetch_post_by_message_id(300, 77).unwrap().id, 1);
    assert!(db.fetch_post_by_message_id(300, 78).is_none());
}

#[test]
fn create_post_generates_fresh_ids_when_none_given() {
    let mut db = Database::new();
    let a = db
        .create_post(None, MediaType::Photo, "f1".to_string(), Some("h1".to_string()), 1, 1, 10)
        .unwrap();
    let b = db
        .create_post(None, MediaType::Photo, "f2".to_string(), Some("h2".to_string()), 1, 2, 11)
        .unwrap();
    assert_ne!(a.id, b.id);
    assert!(!a.is_sent);
    assert_eq!(a.created_datetime, 10);
    assert_eq!(a.sent_datetime, None);
}

#[test]
fn media_type_tags_match_the_schema() {
    assert_eq!(MediaType::Photo.tag(), "photo");
    assert_eq!(MediaType::Video.tag(), "video");
    assert_eq!(MediaType::Animation.tag(), "anim");
}
