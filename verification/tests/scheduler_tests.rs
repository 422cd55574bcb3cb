use channel_helper::database::Database;
use channel_helper::models::MediaType;
use channel_helper::scheduler::{plan_tick, post_ids, TickPlan};

fn seed_photos(db: &mut Database, n: u128) {
    for i in 0..n {
        db.create_post_with_id(
            i + 1,
            MediaType::Photo,
            format!("f{}", i + 1),
            Some(format!("h{}", i + 1)),
            100,
            (i + 1) as i32,
            1000,
        )
        .unwrap();
    }
}

#[test]
fn empty_backlog_plans_nothing() {
    let db = Database::new();
    assert!(matches!(plan_tick(&db, 5, 0, 0), TickPlan::Nothing));
}

#[test]
fn six_unsent_photos_above_threshold_five_batch() {
    let mut db = Database::new();
    seed_photos(&mut db, 6);

    match plan_tick(&db, 5, 2, 3) {
        TickPlan::Album { posts } => {
            assert_eq!(posts.len(), 6);
            let mut ids: Vec<u128> = posts.iter().map(|p| p.id).collect();
            ids.sort();
            assert_eq!(ids, vec![1, 2, 3, 4, 5, 6]);
        },
        _ => panic!("six unsent photos above threshold five must batch"),
    }
}

#[test]
fn four_unsent_photos_below_threshold_five_send_single() {
    let mut db = Database::new();
    seed_photos(&mut db, 4);

    match plan_tick(&db, 5, 1, 0) {
        TickPlan::Single { post } => {
            assert!(matches!(post.media_type, MediaType::Photo));
            assert!(!post.is_sent);
            assert_eq!(post.id, 2);
        },
        _ => panic!("four unsent photos below threshold five must go out alone"),
    }
}

#[test]
fn threshold_zero_disables_batching() {
    let mut db = Database::new();
    seed_photos(&mut db, 12);
    assert!(matches!(plan_tick(&db, 0, 0, 0), TickPlan::Single { .. }));
}

#[test]
fn batch_caps_at_ten_items() {
    let mut db = Database::new();
    seed_photos(&mut db, 14);
    match plan_tick(&db, 5, 0, 7) {
        TickPlan::Album { posts } => assert_eq!(posts.len(), 10),
        _ => panic!("a large photo backlog must batch"),
    }
}

#[test]
fn non_photo_candidate_goes_out_alone() {
    let mut db = Database::new();
    seed_photos(&mut db, 6);
    db.create_post_with_id(100, MediaType::Video, "fv".to_string(), None, 200, 1, 1000)
        .unwrap();
    // pick lands on the video (the seventh eligible post, index 6).
    match plan_tick(&db, 5, 6, 0) {
        TickPlan::Single { post } => assert_eq!(post.id, 100),
        _ => panic!("a video candidate is never batched"),
    }
}

#[test]
fn marking_the_planned_album_empties_the_backlog() {
    let mut db = Database::new();
    seed_photos(&mut db, 6);
    let plan = plan_tick(&db, 5, 0, 0);
    let posts = match plan {
        TickPlan::Album { posts } => posts,
        _ => panic!("must batch"),
    };
    let ids = post_ids(&posts);
    assert_eq!(ids.len(), 6);
    db.mark_sent_posts(&ids, 2000);
    assert_eq!(db.unsent_posts_count(), 0);
    assert!(matches!(plan_tick(&db, 5, 0, 0), TickPlan::Nothing));
}
