use channel_helper::database::Database;
use channel_helper::ingest::{delete_by_message, ingest_media, ingest_photo, DeleteOutcome, IngestOutcome};
use channel_helper::models::MediaType;

#[test]
fn second_submission_with_same_fingerprint_creates_no_post() {
    let mut db = Database::new();

    let first = ingest_photo(
        &mut db,
        "file-a".to_string(),
        "hash-1".to_string(),
        false,
        100,
        1,
        1000,
    );
    let first_id = match first {
        IngestOutcome::Created { post } => post.id,
        _ => panic!("first submission must create a post"),
    };
    assert!(db.post_with_hash_exists("hash-1"));
    assert_eq!(db.unsent_posts_count(), 1);

    // Second submission, same fingerprint, new message location: zero new
    // post rows, one new message-id association.
    let second = ingest_photo(
        &mut db,
        "file-b".to_string(),
        "hash-1".to_string(),
        false,
        100,
        2,
        1001,
    );
    match second {
        IngestOutcome::Duplicate { post_id, file_id, created_datetime } => {
            assert_eq!(post_id, first_id);
            assert_eq!(file_id, "file-a");
            assert_eq!(created_datetime, 1000);
        },
        _ => panic!("second submission must be recognized as a duplicate"),
    }
    assert_eq!(db.unsent_posts_count(), 1);
    // The new location now resolves to the existing post.
    assert_eq!(db.fetch_post_by_message_id(100, 2).unwrap().id, first_id);

    // The duplicate notice's own location is tracked too: one more
    // association, still no new post.
    db.add_message_id_for_post(first_id, 100, 3).unwrap();
    assert_eq!(db.fetch_post_by_message_id(100, 3).unwrap().id, first_id);
    assert_eq!(db.unsent_posts_count(), 1);
}

#[test]
fn override_flag_skips_dedup() {
    let mut db = Database::new();
    let first = ingest_photo(&mut db, "f1".to_string(), "h".to_string(), false, 1, 1, 10);
    assert!(matches!(first, IngestOutcome::Created { .. }));

    let forced = ingest_photo(&mut db, "f2".to_string(), "h".to_string(), true, 1, 2, 11);
    assert!(matches!(forced, IngestOutcome::Created { .. }));
    assert_eq!(db.unsent_posts_count(), 2);
}

#[test]
fn videos_and_animations_skip_hashing() {
    let mut db = Database::new();
    let v = ingest_media(&mut db, MediaType::Video, "fv".to_string(), 1, 1, 10);
    assert!(matches!(v, IngestOutcome::Created { .. }));
    let a = ingest_media(&mut db, MediaType::Animation, "fa".to_string(), 1, 2, 11);
    match a {
        IngestOutcome::Created { post } => {
            assert_eq!(post.image_hash, None);
            assert!(matches!(post.media_type, MediaType::Animation));
        },
        _ => panic!("animation must be stored without dedup"),
    }
    assert_eq!(db.unsent_posts_count(), 2);
}

#[test]
fn retransmitted_origin_location_is_rejected_whole() {
    let mut db = Database::new();
    let first = ingest_media(&mut db, MediaType::Video, "fv".to_string(), 1, 1, 10);
    assert!(matches!(first, IngestOutcome::Created { .. }));

    // Same (chat, message) pair again: the insert is refused as a whole.
    let second = ingest_media(&mut db, MediaType::Video, "fv2".to_string(), 1, 1, 11);
    assert!(matches!(second, IngestOutcome::Rejected));
    assert_eq!(db.unsent_posts_count(), 1);
}

#[test]
fn delete_by_reply_soft_deletes_the_post() {
    let mut db = Database::new();
    let created = ingest_photo(&mut db, "f".to_string(), "h".to_string(), false, 100, 1, 10);
    let id = match created {
        IngestOutcome::Created { post } => post.id,
        _ => panic!("must create"),
    };

    let r = delete_by_message(&mut db, 100, 1);
    assert!(matches!(r, DeleteOutcome::Deleted { post_id } if post_id == id));
    assert!(!db.post_with_hash_exists("h"));
    assert_eq!(db.unsent_posts_count(), 0);

    // The location now resolves to nothing: deleting again finds no post.
    let r2 = delete_by_message(&mut db, 100, 1);
    assert!(matches!(r2, DeleteOutcome::NotFound));

    let r3 = delete_by_message(&mut db, 100, 99);
    assert!(matches!(r3, DeleteOutcome::NotFound));
}
