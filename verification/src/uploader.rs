//! The staging-queue drain discipline.
//!
//! The caller (the drain worker) alternates between this module's
//! decisions and the remote work they ask for: it asks for the next
//! command, performs the relay publish for a photo task, and hands the
//! outcome back to be resolved against the store. Draining continues to
//! exhaustion before the worker blocks on the wake signal again; together
//! with the single-slot doorbell raised by `create_upload_task`, no task
//! can be stranded behind a coalesced signal.

use vstd::prelude::*;
use crate::models::{MediaType, UploadTask};
use crate::ids::fresh_raw_id;
use crate::database::{
    Database, DatabaseV, has_unprocessed_task, loc_taken, post_id_taken, spec_create_post,
    spec_hash_exists, spec_mark_task_complete, task_hash_of, task_id_taken, task_index_of,
    lemma_has_unprocessed_iff_count, lemma_unprocessed_count_complete, unprocessed_count,
};
use crate::models::UploadTaskV;

verus! {

/// How the relay publish of a photo payload ended, as plain values.
pub enum PublishOutcome {
    /// The relay accepted the payload and assigned it a remote file
    /// handle at this message location.
    Delivered { file_id: String, chat_id: i64, message_id: i32 },
    /// The remote service mandated a wait of this many seconds.
    RateLimited { wait_secs: u32 },
    /// Any other delivery failure.
    Failed,
}

impl Clone for PublishOutcome {
    fn clone(&self) -> (res: Self)
        ensures
            res == *self,
    {
        match self {
            PublishOutcome::Delivered { file_id, chat_id, message_id } => {
                PublishOutcome::Delivered {
                    file_id: file_id.clone(),
                    chat_id: *chat_id,
                    message_id: *message_id,
                }
            },
            PublishOutcome::RateLimited { wait_secs } => {
                PublishOutcome::RateLimited { wait_secs: *wait_secs }
            },
            PublishOutcome::Failed => PublishOutcome::Failed,
        }
    }
}

/// What the drain worker should do next.
pub enum DrainCommand {
    /// Nothing is unprocessed: block on the wake signal.
    Wait,
    /// The head task is not a photo: declared unsupported (a warning,
    /// not a failure); complete it via `resolve_unsupported_task`.
    CompleteUnsupported { task_id: u128 },
    /// The head task is a photo: publish its payload to the relay chat,
    /// attaching a delete action pre-keyed to `post_id`, then hand the
    /// outcome to `resolve_photo_task`.
    PublishPhoto { task_id: u128, post_id: u128, data: Vec<u8> },
}

/// Decide the next drain step. For a photo task this also draws the
/// fresh post identifier that the delete action is keyed to.
pub fn next_drain_action(store: &Database) -> (r: DrainCommand)
    ensures
        r is Wait <==> !has_unprocessed_task(store@),
        r matches DrainCommand::CompleteUnsupported { task_id } ==> exists|i: int|
            0 <= i < store@.upload_tasks.len() && (#[trigger] store@.upload_tasks[i]).id == task_id
                && !store@.upload_tasks[i].is_processed && store@.upload_tasks[i].media_type
                != MediaType::Photo,
        r matches DrainCommand::PublishPhoto { task_id, post_id, data } ==> exists|i: int|
            0 <= i < store@.upload_tasks.len() && (#[trigger] store@.upload_tasks[i]).id == task_id
                && !store@.upload_tasks[i].is_processed && store@.upload_tasks[i].media_type
                == MediaType::Photo && data@ == store@.upload_tasks[i].data,
{
    match store.fetch_unprocessed_upload_task() {
        Option::None => DrainCommand::Wait,
        Option::Some(task) => {
            let UploadTask { id: task_id, media_type, data, .. } = task;
            match media_type {
                MediaType::Photo => {
                    let post_id = fresh_raw_id();
                    DrainCommand::PublishPhoto { task_id, post_id, data }
                },
                MediaType::Video => DrainCommand::CompleteUnsupported { task_id },
                MediaType::Animation => DrainCommand::CompleteUnsupported { task_id },
            }
        },
    }
}

/// Complete a staged task of an unsupported media kind.
pub fn resolve_unsupported_task(store: &mut Database, task_id: u128, now: i64)
    requires
        old(store)@.wf(),
    ensures
        final(store)@.wf(),
        final(store)@ == spec_mark_task_complete(old(store)@, task_id, now),
{
    store.mark_complete_upload_task(task_id, now);
}

/// How a photo task was resolved against the store.
pub enum TaskResolution {
    /// A matching fingerprint arrived while the task was staged: the
    /// task is complete and no post was created. The already-published
    /// relay message is not retracted.
    DuplicateDiscarded,
    /// A post was created from the relay message; the task is complete.
    Finalized { post_id: u128 },
    /// The store refused the insert; the task stays unprocessed for a
    /// future pass.
    StoreRejected,
    /// Rate limit: sleep exactly this many seconds; the task stays
    /// unprocessed and is retried on the next pass.
    RetryAfter { wait_secs: u32 },
    /// Other publish failure: the task stays unprocessed for a future
    /// pass.
    Retry,
}

/// Resolve the relay-publish outcome of a photo task: on success,
/// re-check dedup and either discard as duplicate or finalize the task
/// into a post keyed to the pre-drawn identifier; on rate limiting or
/// failure, leave the store untouched so the task is retried.
pub fn resolve_photo_task(
    store: &mut Database,
    task_id: u128,
    post_id: u128,
    outcome: PublishOutcome,
    now: i64,
) -> (r: TaskResolution)
    requires
        old(store)@.wf(),
        exists|i: int|
            0 <= i < old(store)@.upload_tasks.len() && (#[trigger] old(
                store,
            )@.upload_tasks[i]).id == task_id && !old(store)@.upload_tasks[i].is_processed && old(
                store,
            )@.upload_tasks[i].media_type == MediaType::Photo,
    ensures
        final(store)@.wf(),
        outcome matches PublishOutcome::RateLimited { wait_secs } ==> final(store)@ == old(store)@
            && r == (TaskResolution::RetryAfter { wait_secs }),
        outcome is Failed ==> final(store)@ == old(store)@ && r is Retry,
        outcome matches PublishOutcome::Delivered { file_id, chat_id, message_id } ==> {
            let h = task_hash_of(old(store)@, task_id);
            &&& spec_hash_exists(old(store)@, h) ==> final(store)@ == spec_mark_task_complete(
                old(store)@,
                task_id,
                now,
            ) && r is DuplicateDiscarded
            &&& !spec_hash_exists(old(store)@, h) && !post_id_taken(old(store)@, post_id)
                && !loc_taken(old(store)@, chat_id, message_id) ==> final(store)@
                == spec_mark_task_complete(
                spec_create_post(
                    old(store)@,
                    post_id,
                    MediaType::Photo,
                    file_id@,
                    Option::Some(h),
                    chat_id,
                    message_id,
                    now,
                ),
                task_id,
                now,
            ) && r == (TaskResolution::Finalized { post_id })
            &&& !spec_hash_exists(old(store)@, h) && (post_id_taken(old(store)@, post_id)
                || loc_taken(old(store)@, chat_id, message_id)) ==> final(store)@ == old(store)@
                && r is StoreRejected
        },
        final(store)@.wake_pending == old(store)@.wake_pending,
{
    match outcome {
        PublishOutcome::RateLimited { wait_secs } => TaskResolution::RetryAfter { wait_secs },
        PublishOutcome::Failed => TaskResolution::Retry,
        PublishOutcome::Delivered { file_id, chat_id, message_id } => {
            let task = match store.fetch_task_by_id(task_id) {
                Option::Some(t) => t,
                Option::None => {
                    // Unreachable: the task named in the precondition is
                    // present, so the lookup cannot miss.
                    proof {
                        assert(task_id_taken(old(store)@, task_id));
                        assert(false);
                    }
                    return TaskResolution::Retry;
                },
            };
            proof {
                let w = choose|i: int|
                    0 <= i < old(store)@.upload_tasks.len() && (#[trigger] old(
                        store,
                    )@.upload_tasks[i]).id == task_id && !old(store)@.upload_tasks[i].is_processed
                        && old(store)@.upload_tasks[i].media_type == MediaType::Photo;
                let k = task_index_of(old(store)@, task_id);
                assert(w == k);
                assert(task@.media_type == MediaType::Photo);
                assert(task@.image_hash is Some);
            }
            let hash = match task.image_hash {
                Option::Some(h) => h,
                Option::None => {
                    // Unreachable: a photo task always carries its
                    // fingerprint (well-formedness).
                    proof {
                        assert(false);
                    }
                    return TaskResolution::Retry;
                },
            };
            if store.post_with_hash_exists(hash.as_str()) {
                store.mark_complete_upload_task(task_id, now);
                TaskResolution::DuplicateDiscarded
            } else {
                match store.create_post_with_id(
                    post_id,
                    MediaType::Photo,
                    file_id,
                    Option::Some(hash),
                    chat_id,
                    message_id,
                    now,
                ) {
                    Result::Ok(_) => {
                        store.mark_complete_upload_task(task_id, now);
                        TaskResolution::Finalized { post_id }
                    },
                    Result::Err(_) => TaskResolution::StoreRejected,
                }
            }
        },
    }
}

/// No unprocessed staged task is a photo: every remaining task resolves
/// by itself, without a relay publish.
pub open spec fn photo_free(s: DatabaseV) -> bool {
    forall|i: int|
        0 <= i < s.upload_tasks.len() && !(#[trigger] s.upload_tasks[i]).is_processed
            ==> s.upload_tasks[i].media_type != MediaType::Photo
}

/// Drain the staging queue to exhaustion, given one publish outcome per
/// drain step (the worker performs the actual publishes in this order).
/// Returns whether the queue was fully drained — exactly whether no
/// task is left unprocessed, the state in which the worker may block on
/// the wake signal again without losing one. When no remaining task
/// needs a publish (none is a photo), a pass with one outcome per task
/// is guaranteed to drain; a photo task's progress rests on its outcome.
pub fn drain_with_outcomes(store: &mut Database, outcomes: &Vec<PublishOutcome>, now: i64) -> (r:
    bool)
    requires
        old(store)@.wf(),
    ensures
        final(store)@.wf(),
        r == !has_unprocessed_task(final(store)@),
        final(store)@.wake_pending == old(store)@.wake_pending,
        photo_free(old(store)@) && outcomes@.len() >= unprocessed_count(old(store)@) ==> r,
{
    let ghost old_view = store@;
    let ghost g = photo_free(old_view) && outcomes@.len() >= unprocessed_count(old_view);
    let mut k: usize = 0;
    while k < outcomes.len()
        invariant
            old_view == old(store)@,
            store@.wf(),
            store@.wake_pending == old_view.wake_pending,
            k <= outcomes@.len(),
            g == (photo_free(old_view) && outcomes@.len() >= unprocessed_count(old_view)),
            g ==> photo_free(store@),
            g ==> unprocessed_count(store@) + k <= unprocessed_count(old_view),
        decreases outcomes@.len() - k,
    {
        match next_drain_action(store) {
            DrainCommand::Wait => {
                return true;
            },
            DrainCommand::CompleteUnsupported { task_id } => {
                let ghost prev = store@;
                resolve_unsupported_task(store, task_id, now);
                proof {
                    if g {
                        lemma_unprocessed_count_complete(prev.upload_tasks, task_id, now);
                        let w = choose|i: int|
                            0 <= i < prev.upload_tasks.len() && (
                            #[trigger] prev.upload_tasks[i]).id == task_id
                                && !prev.upload_tasks[i].is_processed
                                && prev.upload_tasks[i].media_type != MediaType::Photo;
                        prev.upload_tasks.lemma_filter_contains(
                            |t: UploadTaskV| !t.is_processed && t.id == task_id,
                            w,
                        );
                        assert(prev.upload_tasks.filter(
                            |t: UploadTaskV| !t.is_processed && t.id == task_id,
                        ).len() >= 1);
                        assert(store@.upload_tasks =~= prev.upload_tasks.map_values(
                            |t: UploadTaskV| crate::database::complete_one(t, task_id, now),
                        ));
                        assert(unprocessed_count(store@) + 1 <= unprocessed_count(prev));
                        assert forall|i: int|
                            0 <= i < store@.upload_tasks.len() && !(
                            #[trigger] store@.upload_tasks[i]).is_processed implies store@.upload_tasks[i].media_type
                            != MediaType::Photo by {
                            assert(!prev.upload_tasks[i].is_processed);
                        }
                    }
                }
            },
            DrainCommand::PublishPhoto { task_id, post_id, data: _ } => {
                proof {
                    if g {
                        // photo_free rules this command out: its witness
                        // is an unprocessed photo task.
                        assert(false);
                    }
                }
                let outcome = outcomes[k].clone();
                let _ = resolve_photo_task(store, task_id, post_id, outcome, now);
            },
        }
        k = k + 1;
    }
    proof {
        if g {
            lemma_has_unprocessed_iff_count(store@);
        }
    }
    match store.fetch_unprocessed_upload_task() {
        Option::None => true,
        Option::Some(_) => false,
    }
}

} // verus!
