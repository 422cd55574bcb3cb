//! Ingestion policy for inbound media items.
//!
//! Photos are deduplicated by perceptual fingerprint before a post is
//! created; videos and animations skip hashing entirely. The caller
//! supplies the already-computed fingerprint (hashing happens at the
//! transport edge where the bytes are fetched) and performs the remote
//! notice delivery that a duplicate asks for.

use vstd::prelude::*;
use crate::models::{MediaType, Post};
use crate::database::{
    Database, loc_taken, new_post_v, post_id_taken, spec_add_loc, spec_create_post, spec_hash_exists,
    hash_matches,
};

verus! {

/// What ingesting one item did, and what the caller owes in turn.
pub enum IngestOutcome {
    /// A new post was stored with its origin location; the caller may
    /// acknowledge the sender.
    Created { post: Post },
    /// The fingerprint was already present: no new post was created, the
    /// origin location was linked to the existing post (unless that pair
    /// was already recorded), and the caller should deliver a duplicate
    /// notice carrying these details, then record the notice's own
    /// location with `Database::add_message_id_for_post`.
    Duplicate { post_id: u128, file_id: String, created_datetime: i64 },
    /// The store refused the insert; nothing changed. The failure is the
    /// caller's to log, not to escalate.
    Rejected,
}

/// Ingest one inbound photo, deduplicating by fingerprint unless the
/// sender attached the override flag.
///
/// On a dedup hit the store gains no post row and at most one message
/// location (none when the origin pair is already recorded, as for a
/// retransmitted message).
pub fn ingest_photo(
    store: &mut Database,
    file_id: String,
    hash: String,
    force: bool,
    chat_id: i64,
    message_id: i32,
    now: i64,
) -> (r: IngestOutcome)
    requires
        old(store)@.wf(),
    ensures
        final(store)@.wf(),
        // Dedup hits are recognized exactly.
        r is Duplicate <==> (!force && spec_hash_exists(old(store)@, hash@)),
        // A dedup hit never adds a post row, never touches tasks or the
        // wake slot, and links the origin location to the matched post.
        r matches IngestOutcome::Duplicate { post_id, file_id: dup_file, created_datetime } ==> {
            &&& exists|i: int|
                0 <= i < old(store)@.posts.len() && hash_matches(
                    #[trigger] old(store)@.posts[i],
                    hash@,
                ) && old(store)@.posts[i].id == post_id && old(store)@.posts[i].file_id
                    == dup_file@ && old(store)@.posts[i].created_datetime == created_datetime
            &&& final(store)@.posts == old(store)@.posts
            &&& if loc_taken(old(store)@, chat_id, message_id) {
                final(store)@ == old(store)@
            } else {
                final(store)@ == spec_add_loc(old(store)@, chat_id, message_id, post_id)
            }
        },
        // A miss (or an override) creates the post with its fingerprint
        // and origin location, in one transaction.
        r matches IngestOutcome::Created { post } ==> {
            &&& !post_id_taken(old(store)@, post@.id)
            &&& !loc_taken(old(store)@, chat_id, message_id)
            &&& final(store)@ == spec_create_post(
                old(store)@,
                post@.id,
                MediaType::Photo,
                file_id@,
                Option::Some(hash@),
                chat_id,
                message_id,
                now,
            )
            &&& post@ == new_post_v(
                post@.id,
                MediaType::Photo,
                file_id@,
                Option::Some(hash@),
                now,
            )
            &&& spec_hash_exists(final(store)@, hash@)
        },
        r is Rejected ==> final(store)@ == old(store)@,
        // On the create path, an already recorded origin pair is refused.
        (force || !spec_hash_exists(old(store)@, hash@)) && loc_taken(
            old(store)@,
            chat_id,
            message_id,
        ) ==> r is Rejected,
{
    if !force {
        match store.get_post_by_hash(hash.as_str()) {
            Option::Some(existing) => {
                let Post { id: post_id, file_id: dup_file, created_datetime, .. } = existing;
                let _ = store.add_message_id_for_post(post_id, chat_id, message_id);
                return IngestOutcome::Duplicate { post_id, file_id: dup_file, created_datetime };
            },
            Option::None => {},
        }
    }
    match store.create_post(
        Option::None,
        MediaType::Photo,
        file_id,
        Option::Some(hash),
        chat_id,
        message_id,
        now,
    ) {
        Result::Ok(post) => {
            proof {
                let s1 = final(store)@;
                assert(hash_matches(s1.posts[s1.posts.len() - 1], hash@));
            }
            IngestOutcome::Created { post }
        },
        Result::Err(_) => IngestOutcome::Rejected,
    }
}

/// Ingest one inbound video or animation: no hashing, no dedup, straight
/// to a post with its origin location.
pub fn ingest_media(
    store: &mut Database,
    media_type: MediaType,
    file_id: String,
    chat_id: i64,
    message_id: i32,
    now: i64,
) -> (r: IngestOutcome)
    requires
        old(store)@.wf(),
        media_type != MediaType::Photo,
    ensures
        final(store)@.wf(),
        !(r is Duplicate),
        r matches IngestOutcome::Created { post } ==> {
            &&& !post_id_taken(old(store)@, post@.id)
            &&& !loc_taken(old(store)@, chat_id, message_id)
            &&& final(store)@ == spec_create_post(
                old(store)@,
                post@.id,
                media_type,
                file_id@,
                Option::None,
                chat_id,
                message_id,
                now,
            )
            &&& post@ == new_post_v(post@.id, media_type, file_id@, Option::None, now)
        },
        r is Rejected ==> final(store)@ == old(store)@,
        loc_taken(old(store)@, chat_id, message_id) ==> r is Rejected,
{
    match store.create_post(
        Option::None,
        media_type,
        file_id,
        Option::None,
        chat_id,
        message_id,
        now,
    ) {
        Result::Ok(post) => IngestOutcome::Created { post },
        Result::Err(_) => IngestOutcome::Rejected,
    }
}

/// What an admin delete-by-reply did.
pub enum DeleteOutcome {
    /// No non-deleted post is recorded at the replied-to location.
    NotFound,
    /// The post was soft-deleted (idempotently).
    Deleted { post_id: u128 },
}

/// Admin delete: look the replied-to message location up and soft-delete
/// the owning post.
pub fn delete_by_message(store: &mut Database, chat_id: i64, message_id: i32) -> (r: DeleteOutcome)
    requires
        old(store)@.wf(),
    ensures
        final(store)@.wf(),
        r is NotFound <==> !(exists|i: int, j: int|
            0 <= i < old(store)@.message_ids.len() && 0 <= j < old(store)@.posts.len()
                && (#[trigger] old(store)@.message_ids[i]).chat_id == chat_id
                && old(store)@.message_ids[i].message_id == message_id && (
            #[trigger] old(store)@.posts[j]).id == old(store)@.message_ids[i].post_id
                && !old(store)@.posts[j].deleted),
        r is NotFound ==> final(store)@ == old(store)@,
        r matches DeleteOutcome::Deleted { post_id } ==> {
            &&& exists|i: int, j: int|
                0 <= i < old(store)@.message_ids.len() && 0 <= j < old(store)@.posts.len()
                    && (#[trigger] old(store)@.message_ids[i]).chat_id == chat_id
                    && old(store)@.message_ids[i].message_id == message_id && (
                #[trigger] old(store)@.posts[j]).id == old(store)@.message_ids[i].post_id
                    && !old(store)@.posts[j].deleted && old(store)@.posts[j].id == post_id
            &&& final(store)@ == crate::database::spec_delete(old(store)@, post_id)
        },
{
    match store.fetch_post_by_message_id(chat_id, message_id) {
        Option::Some(post) => {
            store.delete_post(post.id);
            DeleteOutcome::Deleted { post_id: post.id }
        },
        Option::None => DeleteOutcome::NotFound,
    }
}

} // verus!
