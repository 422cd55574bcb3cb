use channel_helper::database::Database;
use channel_helper::models::MediaType;
use channel_helper::uploader::{
    drain_with_outcomes, next_drain_action, resolve_photo_task, resolve_unsupported_task,
    DrainCommand, PublishOutcome, TaskResolution,
};

fn stage_photo(db: &mut Database, hash: &str, now: i64) -> u128 {
    db.create_upload_task(
        MediaType::Photo,
        vec![1, 2, 3],
        Some(hash.to_string()),
        now,
    )
    .unwrap()
    .id
}

#[test]
fn three_creates_coalesce_to_one_wake_and_all_drain() {
    let mut db = Database::new();
    assert!(!db.take_wake());

    // Three tasks staged while the drainer is blocked...
    stage_photo(&mut db, "u1", 10);
    stage_photo(&mut db, "u2", 11);
    stage_photo(&mut db, "u3", 12);

    // ...coalesce into exactly one observed wake.
    assert!(db.take_wake());
    assert!(!db.take_wake());

    // One drain pass with successful publishes processes all three
    // before the drainer would block again.
    let outcomes = vec![
        PublishOutcome::Delivered { file_id: "r1".to_string(), chat_id: 900, message_id: 1 },
        PublishOutcome::Delivered { file_id: "r2".to_string(), chat_id: 900, message_id: 2 },
        PublishOutcome::Delivered { file_id: "r3".to_string(), chat_id: 900, message_id: 3 },
    ];
    assert!(drain_with_outcomes(&mut db, &outcomes, 20));
    assert!(db.fetch_unprocessed_upload_task().is_none());
    assert!(matches!(next_drain_action(&db), DrainCommand::Wait));
    assert_eq!(db.unsent_posts_count(), 3);
    assert!(db.post_with_hash_exists("u1"));
    assert!(db.post_with_hash_exists("u2"));
    assert!(db.post_with_hash_exists("u3"));

    // Draining raised no new wake of its own.
    assert!(!db.take_wake());
}

#[test]
fn finalized_task_takes_the_relay_file_handle_and_prekeyed_id() {
    let mut db = Database::new();
    let task_id = stage_photo(&mut db, "uh", 10);

    let cmd = next_drain_action(&db);
    let (tid, post_id) = match cmd {
        DrainCommand::PublishPhoto { task_id, post_id, data } => {
            assert_eq!(data, vec![1, 2, 3]);
            (task_id, post_id)
        },
        _ => panic!("a staged photo task must ask for a publish"),
    };
    assert_eq!(tid, task_id);

    let r = resolve_photo_task(
        &mut db,
        tid,
        post_id,
        PublishOutcome::Delivered { file_id: "relay-file".to_string(), chat_id: 900, message_id: 5 },
        20,
    );
    assert!(matches!(r, TaskResolution::Finalized { post_id: p } if p == post_id));

    let post = db.get_post_by_hash("uh").expect("the post must exist now");
    assert_eq!(post.id, post_id);
    assert_eq!(post.file_id, "relay-file");
    assert!(!post.is_sent);
    // The task is terminal and its payload is reclaimed.
    assert!(db.fetch_unprocessed_upload_task().is_none());
    let done = db.fetch_task_by_id(task_id).unwrap();
    assert!(done.is_processed);
    assert!(done.data.is_empty());
    assert_eq!(done.processed_datetime, Some(20));
}

#[test]
fn duplicate_arriving_during_staging_discards_the_task() {
    let mut db = Database::new();
    let task_id = stage_photo(&mut db, "same-hash", 10);
    // A post with the same fingerprint lands first (for example through
    // the message stream).
    db.create_post_with_id(
        42,
        MediaType::Photo,
        "origin-file".to_string(),
        Some("same-hash".to_string()),
        100,
        1,
        11,
    )
    .unwrap();

    let r = resolve_photo_task(
        &mut db,
        task_id,
        777,
        PublishOutcome::Delivered { file_id: "relay".to_string(), chat_id: 900, message_id: 1 },
        20,
    );
    assert!(matches!(r, TaskResolution::DuplicateDiscarded));
    // No second post; the task is complete.
    assert_eq!(db.unsent_posts_count(), 1);
    assert_eq!(db.get_post_by_hash("same-hash").unwrap().id, 42);
    assert!(db.fetch_unprocessed_upload_task().is_none());
}

#[test]
fn rate_limit_leaves_the_task_for_the_next_pass() {
    let mut db = Database::new();
    let task_id = stage_photo(&mut db, "rl", 10);

    let r = resolve_photo_task(
        &mut db,
        task_id,
        1,
        PublishOutcome::RateLimited { wait_secs: 37 },
        20,
    );
    assert!(matches!(r, TaskResolution::RetryAfter { wait_secs: 37 }));
    // Untouched: still unprocessed, no post created.
    assert_eq!(db.fetch_unprocessed_upload_task().unwrap().id, task_id);
    assert_eq!(db.unsent_posts_count(), 0);

    let r2 = resolve_photo_task(&mut db, task_id, 1, PublishOutcome::Failed, 21);
    assert!(matches!(r2, TaskResolution::Retry));
    assert_eq!(db.fetch_unprocessed_upload_task().unwrap().id, task_id);
}

#[test]
fn unsupported_media_kind_is_completed_with_a_warning() {
    let mut db = Database::new();
    let task = db
        .create_upload_task(MediaType::Video, vec![9, 9], None, 10)
        .unwrap();

    match next_drain_action(&db) {
        DrainCommand::CompleteUnsupported { task_id } => {
            assert_eq!(task_id, task.id);
            resolve_unsupported_task(&mut db, task_id, 20);
        },
        _ => panic!("a video task is unsupported, not published"),
    }
    assert!(db.fetch_unprocessed_upload_task().is_none());
    // Declared unsupported, not a failure: terminal, no post.
    assert_eq!(db.unsent_posts_count(), 0);
}

#[test]
fn drain_reports_unfinished_when_outcomes_run_out() {
    let mut db = Database::new();
    stage_photo(&mut db, "a", 10);
    stage_photo(&mut db, "b", 11);

    // One rate-limited outcome for two tasks: the pass cannot finish.
    let outcomes = vec![PublishOutcome::RateLimited { wait_secs: 5 }];
    assert!(!drain_with_outcomes(&mut db, &outcomes, 20));
    assert!(db.fetch_unprocessed_upload_task().is_some());
}

#[test]
fn nonphoto_backlog_always_drains_within_outcome_budget() {
    let mut db = Database::new();
    for i in 0..3u8 {
        db.create_upload_task(MediaType::Video, vec![i], None, 10 + i as i64).unwrap();
    }
    // No task needs a publish, so a pass with one outcome per task is
    // guaranteed to drain; the outcomes' contents never matter here.
    let outcomes = vec![PublishOutcome::Failed, PublishOutcome::Failed, PublishOutcome::Failed];
    assert!(drain_with_outcomes(&mut db, &outcomes, 20));
    assert!(db.fetch_unprocessed_upload_task().is_none());
    assert_eq!(db.unsent_posts_count(), 0);
}

#[test]
fn drain_result_reports_queue_emptiness_exactly() {
    let mut db = Database::new();
    // Empty queue: a pass with no outcomes is already drained.
    assert!(drain_with_outcomes(&mut db, &vec![], 10));

    // One photo task whose publish failed: not drained, and the result
    // says so.
    db.create_upload_task(MediaType::Photo, vec![1], Some("q".to_string()), 11).unwrap();
    let outcomes = vec![PublishOutcome::Failed];
    assert!(!drain_with_outcomes(&mut db, &outcomes, 12));
    assert!(db.fetch_unprocessed_upload_task().is_some());
}
