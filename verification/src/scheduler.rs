//! The publish scheduler's per-tick selection: one candidate at random,
//! batched delivery when the photo backlog exceeds the configured
//! threshold, single-item delivery otherwise.
//!
//! The caller runs the interval loop, supplies the random draws, performs
//! the delivery, and on success marks the planned posts sent.

use vstd::prelude::*;
use crate::models::{MediaType, Post, PostV};
use crate::database::{
    Database, DatabaseV, post_unsent, rot_idx, spec_unsent_count, unsent_of, unsent_photo,
    unsent_photos_of,
};

verus! {

/// What one scheduler tick should deliver.
pub enum TickPlan {
    /// Nothing is eligible this tick.
    Nothing,
    /// Deliver one item by its media type's own operation.
    Single { post: Post },
    /// Deliver one grouped album of photos (2 to 10 items).
    Album { posts: Vec<Post> },
}

/// Whether a tick with this candidate switches to batched delivery: the
/// candidate is a photo, batching is enabled, and the backlog exceeds
/// the threshold.
pub open spec fn wants_batch(s: DatabaseV, group_threshold: i64, pick: usize) -> bool {
    &&& spec_unsent_count(s) > 0
    &&& unsent_of(s.posts)[pick as int % spec_unsent_count(s) as int].media_type
        == MediaType::Photo
    &&& group_threshold > 0
    &&& spec_unsent_count(s) > group_threshold
}

/// How many photos a batched tick selects: up to ten, fewer only when
/// fewer are eligible.
pub open spec fn batch_len(s: DatabaseV) -> nat {
    if unsent_photos_of(s.posts).len() < 10 {
        unsent_photos_of(s.posts).len()
    } else {
        10nat
    }
}

/// Plan one scheduler tick. `pick` and `seed` are caller-supplied random
/// draws: `pick` selects the candidate uniformly among eligible posts,
/// `seed` rotates the album selection for fairness.
pub fn plan_tick(store: &Database, group_threshold: i64, pick: usize, seed: usize) -> (r: TickPlan)
    ensures
        r is Nothing <==> spec_unsent_count(store@) == 0,
        // Below threshold (or a non-photo candidate): the candidate goes
        // out alone.
        spec_unsent_count(store@) > 0 && !wants_batch(store@, group_threshold, pick)
            ==> (r matches TickPlan::Single { post } && post@ == unsent_of(store@.posts)[pick as int
            % spec_unsent_count(store@) as int]),
        // Above threshold with a photo candidate: batched selection; an
        // album only when it has at least two items.
        wants_batch(store@, group_threshold, pick) && batch_len(store@) == 1
            ==> (r matches TickPlan::Single { post } && post@ == unsent_photos_of(store@.posts)[rot_idx(
            seed as int % unsent_photos_of(store@.posts).len() as int,
            0,
            unsent_photos_of(store@.posts).len() as int,
        )]),
        wants_batch(store@, group_threshold, pick) && batch_len(store@) >= 2
            ==> (r matches TickPlan::Album { posts } && posts@.len() == batch_len(store@)
            && (forall|j: int|
            0 <= j < posts@.len() ==> #[trigger] posts@[j]@ == unsent_photos_of(store@.posts)[rot_idx(
                seed as int % unsent_photos_of(store@.posts).len() as int,
                j,
                unsent_photos_of(store@.posts).len() as int,
            )])),
        // Whatever the plan, only eligible posts are delivered.
        r matches TickPlan::Single { post } ==> post_unsent(post@),
        r matches TickPlan::Album { posts } ==> forall|j: int|
            0 <= j < posts@.len() ==> unsent_photo(#[trigger] posts@[j]@),
{
    let count = store.unsent_posts_count();
    match store.fetch_unsent_post(pick) {
        Option::None => TickPlan::Nothing,
        Option::Some(candidate) => {
            let batching = candidate.is_photo() && group_threshold > 0 && (count as u128)
                > (group_threshold as u128);
            if batching {
                proof {
                    let posts = store@.posts;
                    let cand = unsent_of(posts)[pick as int % spec_unsent_count(store@) as int];
                    unsent_of(posts).lemma_index_contains(
                        pick as int % spec_unsent_count(store@) as int,
                    );
                    posts.lemma_filter_contains_rev(|p: PostV| post_unsent(p), cand);
                    let j = choose|j: int| 0 <= j < posts.len() && posts[j] == cand;
                    assert(unsent_photo(posts[j]));
                    posts.lemma_filter_contains(|p: PostV| unsent_photo(p), j);
                    assert(unsent_photos_of(posts).contains(cand));
                    assert(unsent_photos_of(posts).len() >= 1);
                }
                let batch = store.fetch_ten_unsent_photo_posts(seed);
                if batch.len() == 1 {
                    let post = batch[0].clone();
                    TickPlan::Single { post }
                } else {
                    TickPlan::Album { posts: batch }
                }
            } else {
                TickPlan::Single { post: candidate }
            }
        },
    }
}

/// The identifiers of the posts an album plan delivers, for the
/// mark-sent call that follows a successful delivery.
pub fn post_ids(posts: &Vec<Post>) -> (r: Vec<u128>)
    ensures
        r@ == posts@.map_values(|p: Post| p@.id),
{
    let mut out: Vec<u128> = Vec::new();
    let mut i: usize = 0;
    while i < posts.len()
        invariant
            i <= posts@.len(),
            out@.len() == i,
            forall|j: int| 0 <= j < i ==> out@[j] == posts@[j]@.id,
        decreases posts@.len() - i,
    {
        out.push(posts[i].id);
        i = i + 1;
    }
    proof {
        assert(out@ =~= posts@.map_values(|p: Post| p@.id));
    }
    out
}

} // verus!
