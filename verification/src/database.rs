//! The post store: all service state — posts, their message locations,
//! and staged upload tasks — with a single-slot wake signal for the
//! queue drainer.
//!
//! Every operation is atomic with respect to the model: its contract
//! relates the whole store view before and after the call, so a caller
//! holding the store behind mutual exclusion gets serialized transactions.
//! The store lives in memory only; durability is the embedding process's
//! concern, and a fresh process starts from `Database::new`, empty.

use vstd::prelude::*;
use crate::models::{MediaType, Post, PostV, PostMessageId, UploadTask, UploadTaskV};
use crate::ids::fresh_raw_id;

verus! {

/// Mathematical view of the whole store.
pub struct DatabaseV {
    pub posts: Seq<PostV>,
    pub message_ids: Seq<PostMessageId>,
    pub upload_tasks: Seq<UploadTaskV>,
    /// Single-slot doorbell: raised by `create_upload_task`, consumed by
    /// `take_wake`. Signals raised while pending coalesce into one.
    pub wake_pending: bool,
}

/// Whether a post participates in dedup lookups for hash `h`:
/// it is not soft-deleted and carries exactly that fingerprint.
pub open spec fn hash_matches(p: PostV, h: Seq<char>) -> bool {
    !p.deleted && p.image_hash == Option::Some(h)
}

/// A non-deleted post with fingerprint `h` exists.
pub open spec fn spec_hash_exists(s: DatabaseV, h: Seq<char>) -> bool {
    exists|i: int| 0 <= i < s.posts.len() && hash_matches(#[trigger] s.posts[i], h)
}

/// Whether a post is eligible for publishing: neither sent nor deleted.
pub open spec fn post_unsent(p: PostV) -> bool {
    !p.is_sent && !p.deleted
}

/// Whether a post is an unsent, non-deleted photo.
pub open spec fn unsent_photo(p: PostV) -> bool {
    post_unsent(p) && p.media_type == MediaType::Photo
}

/// The subsequence of publish-eligible posts, in store order.
pub open spec fn unsent_of(posts: Seq<PostV>) -> Seq<PostV> {
    posts.filter(|p: PostV| post_unsent(p))
}

/// The subsequence of publish-eligible photo posts, in store order.
pub open spec fn unsent_photos_of(posts: Seq<PostV>) -> Seq<PostV> {
    posts.filter(|p: PostV| unsent_photo(p))
}

/// Count of publish-eligible posts.
pub open spec fn spec_unsent_count(s: DatabaseV) -> nat {
    unsent_of(s.posts).len()
}

/// Some post (deleted or not) already carries this identifier.
pub open spec fn post_id_taken(s: DatabaseV, id: u128) -> bool {
    exists|i: int| 0 <= i < s.posts.len() && (#[trigger] s.posts[i]).id == id
}

/// Some message location entry already records this (chat, message) pair.
pub open spec fn loc_taken(s: DatabaseV, chat_id: i64, message_id: i32) -> bool {
    exists|i: int|
        0 <= i < s.message_ids.len() && (#[trigger] s.message_ids[i]).chat_id == chat_id
            && s.message_ids[i].message_id == message_id
}

/// Some upload task already carries this identifier.
pub open spec fn task_id_taken(s: DatabaseV, id: u128) -> bool {
    exists|i: int| 0 <= i < s.upload_tasks.len() && (#[trigger] s.upload_tasks[i]).id == id
}

/// Some staged task is still unprocessed.
pub open spec fn has_unprocessed_task(s: DatabaseV) -> bool {
    exists|i: int| 0 <= i < s.upload_tasks.len() && !(#[trigger] s.upload_tasks[i]).is_processed
}

/// The still-unprocessed staged tasks, in store order.
pub open spec fn unprocessed_of(tasks: Seq<UploadTaskV>) -> Seq<UploadTaskV> {
    tasks.filter(|t: UploadTaskV| !t.is_processed)
}

/// Count of still-unprocessed staged tasks.
pub open spec fn unprocessed_count(s: DatabaseV) -> nat {
    unprocessed_of(s.upload_tasks).len()
}

impl DatabaseV {
    /// Well-formedness: post identifiers are unique, (chat, message)
    /// pairs are unique across all location entries, task identifiers
    /// are unique, and every photo task carries a fingerprint.
    pub open spec fn wf(self) -> bool {
        &&& forall|i: int, j: int|
            0 <= i < j < self.posts.len() ==> (#[trigger] self.posts[i]).id != (
            #[trigger] self.posts[j]).id
        &&& forall|i: int, j: int|
            0 <= i < j < self.message_ids.len() ==> !((#[trigger] self.message_ids[i]).chat_id == (
            #[trigger] self.message_ids[j]).chat_id && self.message_ids[i].message_id
                == self.message_ids[j].message_id)
        &&& forall|i: int, j: int|
            0 <= i < j < self.upload_tasks.len() ==> (#[trigger] self.upload_tasks[i]).id != (
            #[trigger] self.upload_tasks[j]).id
        &&& forall|i: int|
            0 <= i < self.upload_tasks.len() && (#[trigger] self.upload_tasks[i]).media_type
                == MediaType::Photo ==> self.upload_tasks[i].image_hash is Some
    }
}

/// View of an optional fingerprint argument.
pub open spec fn opt_str_v(h: Option<String>) -> Option<Seq<char>> {
    match h {
        Option::Some(s) => Option::Some(s@),
        Option::None => Option::None,
    }
}

/// The view of a freshly created post.
pub open spec fn new_post_v(
    id: u128,
    media_type: MediaType,
    file_id: Seq<char>,
    image_hash: Option<Seq<char>>,
    now: i64,
) -> PostV {
    PostV {
        id,
        media_type,
        file_id,
        is_sent: false,
        created_datetime: now,
        sent_datetime: Option::None,
        image_hash,
        deleted: false,
    }
}

/// Database after inserting a post and its first message location in one
/// transaction.
pub open spec fn spec_create_post(
    s: DatabaseV,
    id: u128,
    media_type: MediaType,
    file_id: Seq<char>,
    image_hash: Option<Seq<char>>,
    chat_id: i64,
    message_id: i32,
    now: i64,
) -> DatabaseV {
    DatabaseV {
        posts: s.posts.push(new_post_v(id, media_type, file_id, image_hash, now)),
        message_ids: s.message_ids.push(PostMessageId { chat_id, message_id, post_id: id }),
        ..s
    }
}

/// Database after appending one message location.
pub open spec fn spec_add_loc(s: DatabaseV, chat_id: i64, message_id: i32, post_id: u128) -> DatabaseV {
    DatabaseV { message_ids: s.message_ids.push(PostMessageId { chat_id, message_id, post_id }), ..s }
}

/// One post after a bulk mark-sent that names `ids`: marked exactly if it
/// is named and not yet sent, so re-marking changes nothing.
pub open spec fn mark_one(p: PostV, ids: Seq<u128>, now: i64) -> PostV {
    if ids.contains(p.id) && !p.is_sent {
        PostV { is_sent: true, sent_datetime: Option::Some(now), ..p }
    } else {
        p
    }
}

/// Database after a bulk mark-sent.
pub open spec fn spec_mark_sent(s: DatabaseV, ids: Seq<u128>, now: i64) -> DatabaseV {
    DatabaseV { posts: Seq::new(s.posts.len(), |i: int| mark_one(s.posts[i], ids, now)), ..s }
}

/// One post after a soft delete of `id`.
pub open spec fn del_one(p: PostV, id: u128) -> PostV {
    if p.id == id {
        PostV { deleted: true, ..p }
    } else {
        p
    }
}

/// Database after a soft delete.
pub open spec fn spec_delete(s: DatabaseV, id: u128) -> DatabaseV {
    DatabaseV { posts: Seq::new(s.posts.len(), |i: int| del_one(s.posts[i], id)), ..s }
}

/// The view of a freshly staged upload task.
pub open spec fn new_task_v(
    id: u128,
    media_type: MediaType,
    data: Seq<u8>,
    image_hash: Option<Seq<char>>,
    now: i64,
) -> UploadTaskV {
    UploadTaskV {
        id,
        media_type,
        data,
        is_processed: false,
        created_datetime: now,
        processed_datetime: Option::None,
        image_hash,
    }
}

/// Database after staging an upload task: the task is appended and the wake
/// signal is raised (one slot, so signals coalesce).
pub open spec fn spec_create_task(
    s: DatabaseV,
    id: u128,
    media_type: MediaType,
    data: Seq<u8>,
    image_hash: Option<Seq<char>>,
    now: i64,
) -> DatabaseV {
    DatabaseV {
        upload_tasks: s.upload_tasks.push(new_task_v(id, media_type, data, image_hash, now)),
        wake_pending: true,
        ..s
    }
}

/// One task after completion of `id`: terminal, payload reclaimed;
/// already-processed tasks are left as they are.
pub open spec fn complete_one(t: UploadTaskV, id: u128, now: i64) -> UploadTaskV {
    if t.id == id && !t.is_processed {
        UploadTaskV {
            data: Seq::empty(),
            is_processed: true,
            processed_datetime: Option::Some(now),
            ..t
        }
    } else {
        t
    }
}

/// Database after marking a task complete.
pub open spec fn spec_mark_task_complete(s: DatabaseV, id: u128, now: i64) -> DatabaseV {
    DatabaseV {
        upload_tasks: Seq::new(s.upload_tasks.len(), |i: int| complete_one(s.upload_tasks[i], id, now)),
        ..s
    }
}

/// Why a store operation refused to commit; the store is unchanged.
#[derive(Clone, Copy, PartialEq, Eq, Structural, Debug)]
pub enum StoreError {
    /// The given or generated identifier is already in use.
    IdConflict,
    /// The (chat, message) pair is already recorded.
    LocationConflict,
}

/// The store. All durable state of the service lives here; operations
/// relate the before and after views exactly.
pub struct Database {
    posts: Vec<Post>,
    message_ids: Vec<PostMessageId>,
    upload_tasks: Vec<UploadTask>,
    wake_pending: bool,
}

impl View for Database {
    type V = DatabaseV;

    closed spec fn view(&self) -> DatabaseV {
        DatabaseV {
            posts: self.posts@.map_values(|p: Post| p@),
            message_ids: self.message_ids@,
            upload_tasks: self.upload_tasks@.map_values(|t: UploadTask| t@),
            wake_pending: self.wake_pending,
        }
    }
}

impl Database {
    /// An empty store with the wake slot clear.
    pub fn new() -> (s: Database)
        ensures
            s@.wf(),
            s@.posts == Seq::<PostV>::empty(),
            s@.message_ids == Seq::<PostMessageId>::empty(),
            s@.upload_tasks == Seq::<UploadTaskV>::empty(),
            !s@.wake_pending,
    {
        let s = Database {
            posts: Vec::new(),
            message_ids: Vec::new(),
            upload_tasks: Vec::new(),
            wake_pending: false,
        };
        proof {
            assert(s@.posts =~= Seq::<PostV>::empty());
            assert(s@.upload_tasks =~= Seq::<UploadTaskV>::empty());
        }
        s
    }

    fn post_id_exists(&self, id: u128) -> (r: bool)
        ensures
            r == post_id_taken(self@, id),
    {
        let mut i: usize = 0;
        while i < self.posts.len()
            invariant
                i <= self.posts@.len(),
                self@.posts.len() == self.posts@.len(),
                forall|j: int| 0 <= j < i ==> (#[trigger] self@.posts[j]).id != id,
            decreases self.posts@.len() - i,
        {
            if self.posts[i].id == id {
                assert(self@.posts[i as int].id == id);
                return true;
            }
            i = i + 1;
        }
        false
    }

    fn loc_exists(&self, chat_id: i64, message_id: i32) -> (r: bool)
        ensures
            r == loc_taken(self@, chat_id, message_id),
    {
        let mut i: usize = 0;
        while i < self.message_ids.len()
            invariant
                i <= self.message_ids@.len(),
                forall|j: int|
                    0 <= j < i ==> !((#[trigger] self.message_ids@[j]).chat_id == chat_id
                        && self.message_ids@[j].message_id == message_id),
            decreases self.message_ids@.len() - i,
        {
            let m = self.message_ids[i];
            if m.chat_id == chat_id && m.message_id == message_id {
                assert((#[trigger] self@.message_ids[i as int]).chat_id == chat_id
                    && self@.message_ids[i as int].message_id == message_id);
                return true;
            }
            i = i + 1;
        }
        false
    }

    fn task_id_exists(&self, id: u128) -> (r: bool)
        ensures
            r == task_id_taken(self@, id),
    {
        let mut i: usize = 0;
        while i < self.upload_tasks.len()
            invariant
                i <= self.upload_tasks@.len(),
                self@.upload_tasks.len() == self.upload_tasks@.len(),
                forall|j: int| 0 <= j < i ==> (#[trigger] self@.upload_tasks[j]).id != id,
            decreases self.upload_tasks@.len() - i,
        {
            if self.upload_tasks[i].id == id {
                assert(self@.upload_tasks[i as int].id == id);
                return true;
            }
            i = i + 1;
        }
        false
    }

    /// Inserts a post with the given identifier and its first message
    /// location in one transaction; refuses identifier and location
    /// collisions, leaving the store unchanged.
    pub fn create_post_with_id(
        &mut self,
        id: u128,
        media_type: MediaType,
        file_id: String,
        image_hash: Option<String>,
        chat_id: i64,
        message_id: i32,
        now: i64,
    ) -> (r: Result<Post, StoreError>)
        requires
            old(self)@.wf(),
        ensures
            final(self)@.wf(),
            r is Ok <==> (!post_id_taken(old(self)@, id) && !loc_taken(
                old(self)@,
                chat_id,
                message_id,
            )),
            r is Ok ==> final(self)@ == spec_create_post(
                old(self)@,
                id,
                media_type,
                file_id@,
                opt_str_v(image_hash),
                chat_id,
                message_id,
                now,
            ),
            r is Ok ==> r.unwrap()@ == new_post_v(
                id,
                media_type,
                file_id@,
                opt_str_v(image_hash),
                now,
            ),
            r is Err ==> final(self)@ == old(self)@,
            post_id_taken(old(self)@, id) ==> r == Result::<Post, StoreError>::Err(
                StoreError::IdConflict,
            ),
            !post_id_taken(old(self)@, id) && loc_taken(old(self)@, chat_id, message_id) ==> r
                == Result::<Post, StoreError>::Err(StoreError::LocationConflict),
    {
        if self.post_id_exists(id) {
            return Result::Err(StoreError::IdConflict);
        }
        if self.loc_exists(chat_id, message_id) {
            return Result::Err(StoreError::LocationConflict);
        }
        let post = Post {
            id,
            media_type,
            file_id,
            is_sent: false,
            created_datetime: now,
            sent_datetime: Option::None,
            image_hash,
            deleted: false,
        };
        let ret = post.clone();
        let ghost old_view = self@;
        self.posts.push(post);
        self.message_ids.push(PostMessageId { chat_id, message_id, post_id: id });
        proof {
            assert(self@.posts =~= old_view.posts.push(
                new_post_v(id, media_type, file_id@, opt_str_v(image_hash), now),
            ));
            assert(self@.upload_tasks =~= old_view.upload_tasks);
            assert(self@ =~= spec_create_post(
                old_view,
                id,
                media_type,
                file_id@,
                opt_str_v(image_hash),
                chat_id,
                message_id,
                now,
            ));
        }
        Result::Ok(ret)
    }

    /// Inserts a post, generating a fresh identifier when none is given,
    /// together with its first message location.
    pub fn create_post(
        &mut self,
        id: Option<u128>,
        media_type: MediaType,
        file_id: String,
        image_hash: Option<String>,
        chat_id: i64,
        message_id: i32,
        now: i64,
    ) -> (r: Result<Post, StoreError>)
        requires
            old(self)@.wf(),
        ensures
            final(self)@.wf(),
            r is Ok ==> !post_id_taken(old(self)@, r.unwrap()@.id) && !loc_taken(
                old(self)@,
                chat_id,
                message_id,
            ) && final(self)@ == spec_create_post(
                old(self)@,
                r.unwrap()@.id,
                media_type,
                file_id@,
                opt_str_v(image_hash),
                chat_id,
                message_id,
                now,
            ) && r.unwrap()@ == new_post_v(
                r.unwrap()@.id,
                media_type,
                file_id@,
                opt_str_v(image_hash),
                now,
            ),
            r is Err ==> final(self)@ == old(self)@,
            id matches Option::Some(i) ==> (r is Ok <==> (!post_id_taken(old(self)@, i)
                && !loc_taken(old(self)@, chat_id, message_id))),
            id is Some && r is Ok ==> r.unwrap()@.id == id.unwrap(),
            loc_taken(old(self)@, chat_id, message_id) ==> r is Err,
    {
        let the_id = match id {
            Option::Some(i) => i,
            Option::None => fresh_raw_id(),
        };
        self.create_post_with_id(the_id, media_type, file_id, image_hash, chat_id, message_id, now)
    }

    /// Appends one message location for a post; refuses an already
    /// recorded (chat, message) pair, leaving the store unchanged.
    pub fn add_message_id_for_post(&mut self, post_id: u128, chat_id: i64, message_id: i32) -> (r:
        Result<(), StoreError>)
        requires
            old(self)@.wf(),
        ensures
            final(self)@.wf(),
            r is Ok <==> !loc_taken(old(self)@, chat_id, message_id),
            r is Ok ==> final(self)@ == spec_add_loc(old(self)@, chat_id, message_id, post_id),
            r is Err ==> final(self)@ == old(self)@ && r == Result::<(), StoreError>::Err(
                StoreError::LocationConflict,
            ),
    {
        if self.loc_exists(chat_id, message_id) {
            return Result::Err(StoreError::LocationConflict);
        }
        let ghost old_view = self@;
        self.message_ids.push(PostMessageId { chat_id, message_id, post_id });
        proof {
            assert(self@ =~= spec_add_loc(old_view, chat_id, message_id, post_id));
        }
        Result::Ok(())
    }

    /// Returns a non-deleted post carrying exactly this fingerprint, or
    /// none when no such post exists.
    pub fn get_post_by_hash(&self, hash: &str) -> (r: Option<Post>)
        ensures
            r is Some <==> spec_hash_exists(self@, hash@),
            r matches Option::Some(p) ==> hash_matches(p@, hash@) && exists|i: int|
                0 <= i < self@.posts.len() && #[trigger] self@.posts[i] == p@,
    {
        let needle: String = hash.to_owned();
        let mut i: usize = 0;
        while i < self.posts.len()
            invariant
                i <= self.posts@.len(),
                self@.posts.len() == self.posts@.len(),
                needle@ == hash@,
                forall|j: int| 0 <= j < i ==> !hash_matches(#[trigger] self@.posts[j], hash@),
            decreases self.posts@.len() - i,
        {
            let p = &self.posts[i];
            if !p.deleted {
                let matched = match &p.image_hash {
                    Option::Some(h) => *h == needle,
                    Option::None => false,
                };
                if matched {
                    assert(hash_matches(#[trigger] self@.posts[i as int], hash@));
                    return Option::Some(p.clone());
                }
            }
            i = i + 1;
        }
        Option::None
    }

    /// Cheap existence check for the dedup fingerprint, excluding
    /// soft-deleted posts.
    pub fn post_with_hash_exists(&self, hash: &str) -> (r: bool)
        ensures
            r == spec_hash_exists(self@, hash@),
    {
        let needle: String = hash.to_owned();
        let mut i: usize = 0;
        while i < self.posts.len()
            invariant
                i <= self.posts@.len(),
                self@.posts.len() == self.posts@.len(),
                needle@ == hash@,
                forall|j: int| 0 <= j < i ==> !hash_matches(#[trigger] self@.posts[j], hash@),
            decreases self.posts@.len() - i,
        {
            let p = &self.posts[i];
            if !p.deleted {
                let matched = match &p.image_hash {
                    Option::Some(h) => *h == needle,
                    Option::None => false,
                };
                if matched {
                    assert(hash_matches(#[trigger] self@.posts[i as int], hash@));
                    return true;
                }
            }
            i = i + 1;
        }
        false
    }

    /// The publish-eligible posts (optionally photos only), in store
    /// order, as fresh copies.
    fn collect_unsent(&self, photos_only: bool) -> (r: Vec<Post>)
        ensures
            photos_only ==> r@.map_values(|p: Post| p@) == unsent_photos_of(self@.posts),
            !photos_only ==> r@.map_values(|p: Post| p@) == unsent_of(self@.posts),
    {
        let mut out: Vec<Post> = Vec::new();
        let mut i: usize = 0;
        proof {
            assert(self@.posts.take(0) =~= Seq::<PostV>::empty());
            assert(out@.map_values(|p: Post| p@) =~= Seq::<PostV>::empty());
        }
        while i < self.posts.len()
            invariant
                i <= self.posts@.len(),
                self@.posts.len() == self.posts@.len(),
                photos_only ==> out@.map_values(|p: Post| p@) == unsent_photos_of(
                    self@.posts.take(i as int),
                ),
                !photos_only ==> out@.map_values(|p: Post| p@) == unsent_of(
                    self@.posts.take(i as int),
                ),
            decreases self.posts@.len() - i,
        {
            let p = &self.posts[i];
            let keep = !p.is_sent && !p.deleted && (!photos_only || p.media_type
                == MediaType::Photo);
            proof {
                lemma_eligible_take_step(self@.posts, i as int);
            }
            if keep {
                let ghost pre = out@.map_values(|p: Post| p@);
                out.push(p.clone());
                proof {
                    assert(out@.map_values(|p: Post| p@) =~= pre.push(self@.posts[i as int]));
                }
            }
            i = i + 1;
        }
        proof {
            assert(self@.posts.take(self.posts@.len() as int) =~= self@.posts);
        }
        out
    }

    /// Count of posts that are neither sent nor deleted.
    pub fn unsent_posts_count(&self) -> (n: usize)
        ensures
            n == spec_unsent_count(self@),
    {
        let elig = self.collect_unsent(false);
        elig.len()
    }

    /// One publish-eligible post, selected by the caller-supplied draw
    /// `pick` (reduced modulo the number of eligible posts), or none when
    /// nothing is eligible. A uniformly random `pick` yields a uniformly
    /// random eligible post.
    pub fn fetch_unsent_post(&self, pick: usize) -> (r: Option<Post>)
        ensures
            r is Some <==> spec_unsent_count(self@) > 0,
            r matches Option::Some(p) ==> p@ == unsent_of(self@.posts)[pick as int % spec_unsent_count(
                self@,
            ) as int],
            r matches Option::Some(p) ==> post_unsent(p@),
    {
        let elig = self.collect_unsent(false);
        if elig.len() == 0 {
            Option::None
        } else {
            let k = pick % elig.len();
            proof {
                assert(unsent_of(self@.posts)[k as int] == elig@.map_values(|p: Post| p@)[k as int]);
                assert(post_unsent(unsent_of(self@.posts)[k as int])) by {
                    assert(forall|q: PostV| (|p: PostV| post_unsent(p))(q) == post_unsent(q));
                    self@.posts.lemma_filter_pred(|p: PostV| post_unsent(p), k as int);
                }
            }
            Option::Some(elig[k].clone())
        }
    }

    /// Up to ten publish-eligible photo posts, pairwise distinct rows,
    /// selected by rotating the eligible list from a caller-supplied
    /// starting draw `seed`; fewer only when fewer are eligible.
    pub fn fetch_ten_unsent_photo_posts(&self, seed: usize) -> (r: Vec<Post>)
        ensures
            r@.len() == if unsent_photos_of(self@.posts).len() < 10 {
                unsent_photos_of(self@.posts).len()
            } else {
                10nat
            },
            forall|j: int|
                0 <= j < r@.len() ==> #[trigger] r@[j]@ == unsent_photos_of(self@.posts)[rot_idx(
                    seed as int % unsent_photos_of(self@.posts).len() as int,
                    j,
                    unsent_photos_of(self@.posts).len() as int,
                )],
            forall|j: int| 0 <= j < r@.len() ==> unsent_photo(#[trigger] r@[j]@),
    {
        let elig = self.collect_unsent(true);
        let n = elig.len();
        let mut out: Vec<Post> = Vec::new();
        if n == 0 {
            return out;
        }
        let start = seed % n;
        let take_n = if n < 10 { n } else { 10 };
        let mut j: usize = 0;
        let mut idx: usize = start;
        while j < take_n
            invariant
                0 < n == elig@.len(),
                start < n,
                take_n <= n,
                idx < n,
                idx == rot_idx(start as int, j as int, n as int),
                elig@.map_values(|p: Post| p@) == unsent_photos_of(self@.posts),
                out@.len() == j,
                j <= take_n,
                forall|k: int|
                    0 <= k < j ==> #[trigger] out@[k]@ == unsent_photos_of(self@.posts)[rot_idx(
                        start as int,
                        k,
                        n as int,
                    )],
            decreases take_n - j,
        {
            out.push(elig[idx].clone());
            proof {
                assert(out@[j as int]@ == unsent_photos_of(self@.posts)[rot_idx(
                    start as int,
                    j as int,
                    n as int,
                )]);
            }
            idx = if idx + 1 == n {
                0
            } else {
                idx + 1
            };
            j = j + 1;
        }
        proof {
            assert(forall|k: int|
                0 <= k < out@.len() ==> unsent_photo(#[trigger] out@[k]@)) by {
                assert(forall|q: PostV| (|p: PostV| unsent_photo(p))(q) == unsent_photo(q));
                assert forall|k: int| 0 <= k < out@.len() implies unsent_photo(
                    #[trigger] out@[k]@,
                ) by {
                    let m = rot_idx(start as int, k, n as int);
                    self@.posts.lemma_filter_pred(|p: PostV| unsent_photo(p), m);
                }
            }
        }
        out
    }

    /// Bulk mark-sent: each named, not-yet-sent post becomes sent with
    /// its sent timestamp set once; everything else is untouched, so the
    /// operation is idempotent.
    pub fn mark_sent_posts(&mut self, ids: &Vec<u128>, now: i64)
        requires
            old(self)@.wf(),
        ensures
            final(self)@.wf(),
            final(self)@ == spec_mark_sent(old(self)@, ids@, now),
    {
        let ghost old_view = self@;
        let mut i: usize = 0;
        while i < self.posts.len()
            invariant
                i <= self.posts@.len(),
                self.posts@.len() == old_view.posts.len(),
                self@.message_ids == old_view.message_ids,
                self@.upload_tasks == old_view.upload_tasks,
                self@.wake_pending == old_view.wake_pending,
                forall|j: int|
                    0 <= j < i ==> #[trigger] self@.posts[j] == mark_one(
                        old_view.posts[j],
                        ids@,
                        now,
                    ),
                forall|j: int|
                    i <= j < self.posts@.len() ==> #[trigger] self@.posts[j] == old_view.posts[j],
            decreases self.posts@.len() - i,
        {
            let ghost prev = self@;
            let named = contains_id(ids, self.posts[i].id);
            if named && !self.posts[i].is_sent {
                let mut p = self.posts[i].clone();
                p.is_sent = true;
                p.sent_datetime = Option::Some(now);
                self.posts[i] = p;
                proof {
                    assert(self@.posts[i as int] == p@);
                    assert(forall|j: int|
                        0 <= j < prev.posts.len() && j != i ==> #[trigger] self@.posts[j]
                            == prev.posts[j]);
                    assert(prev.posts[i as int] == old_view.posts[i as int]);
                    assert(ids@.contains(old_view.posts[i as int].id));
                    assert(!old_view.posts[i as int].is_sent);
                    assert(p@.id == old_view.posts[i as int].id);
                    assert(p@.file_id == old_view.posts[i as int].file_id);
                    assert(p@.image_hash == old_view.posts[i as int].image_hash);
                    assert(p@.is_sent == true);
                    assert(p@.sent_datetime == Option::<i64>::Some(now));
                    assert(p@ == mark_one(old_view.posts[i as int], ids@, now));
                }
            }
            proof {
                assert(self@.posts[i as int] == mark_one(old_view.posts[i as int], ids@, now));
            }
            i = i + 1;
        }
        proof {
            assert(self@.posts =~= spec_mark_sent(old_view, ids@, now).posts);
            assert(self@ =~= spec_mark_sent(old_view, ids@, now));
            assert(final(self)@.wf()) by {
                assert(forall|j: int|
                    0 <= j < self@.posts.len() ==> (#[trigger] self@.posts[j]).id
                        == old_view.posts[j].id);
            }
        }
    }

    /// Reverse lookup from a message location to its non-deleted post.
    pub fn fetch_post_by_message_id(&self, chat_id: i64, message_id: i32) -> (r: Option<Post>)
        requires
            self@.wf(),
        ensures
            r is Some <==> exists|i: int, j: int|
                0 <= i < self@.message_ids.len() && 0 <= j < self@.posts.len()
                    && (#[trigger] self@.message_ids[i]).chat_id == chat_id
                    && self@.message_ids[i].message_id == message_id && (
                #[trigger] self@.posts[j]).id == self@.message_ids[i].post_id
                    && !self@.posts[j].deleted,
            r matches Option::Some(p) ==> exists|i: int, j: int|
                0 <= i < self@.message_ids.len() && 0 <= j < self@.posts.len()
                    && (#[trigger] self@.message_ids[i]).chat_id == chat_id
                    && self@.message_ids[i].message_id == message_id && (
                #[trigger] self@.posts[j]).id == self@.message_ids[i].post_id
                    && !self@.posts[j].deleted && p@ == self@.posts[j],
    {
        let mut i: usize = 0;
        while i < self.message_ids.len()
            invariant
                i <= self.message_ids@.len(),
                self@.wf(),
                forall|k: int|
                    0 <= k < i ==> !((#[trigger] self@.message_ids[k]).chat_id == chat_id
                        && self@.message_ids[k].message_id == message_id),
            decreases self.message_ids@.len() - i,
        {
            let m = self.message_ids[i];
            if m.chat_id == chat_id && m.message_id == message_id {
                assert((#[trigger] self@.message_ids[i as int]).chat_id == chat_id
                    && self@.message_ids[i as int].message_id == message_id);
                let mut j: usize = 0;
                while j < self.posts.len()
                    invariant
                        j <= self.posts@.len(),
                        self@.posts.len() == self.posts@.len(),
                        forall|k: int|
                            0 <= k < j ==> !((#[trigger] self@.posts[k]).id == m.post_id
                                && !self@.posts[k].deleted),
                        m == self@.message_ids[i as int],
                        i < self@.message_ids.len(),
                        m.chat_id == chat_id && m.message_id == message_id,
                        self@.wf(),
                    decreases self.posts@.len() - j,
                {
                    let p = &self.posts[j];
                    if p.id == m.post_id && !p.deleted {
                        assert((#[trigger] self@.posts[j as int]).id == m.post_id
                            && !self@.posts[j as int].deleted);
                        return Option::Some(p.clone());
                    }
                    j = j + 1;
                }
                // The location entry exists but its post is deleted (or
                // absent); under pair uniqueness no other entry can match.
                assert(forall|k: int|
                    0 <= k < self@.message_ids.len() && (#[trigger] self@.message_ids[k]).chat_id
                        == chat_id && self@.message_ids[k].message_id == message_id ==> k
                        == i as int);
                return Option::None;
            }
            i = i + 1;
        }
        Option::None
    }

    /// Soft delete: the named post (if any) is flagged deleted and
    /// thereby excluded from dedup lookups, unsent selection, and counts;
    /// its row is retained. Idempotent.
    pub fn delete_post(&mut self, post_id: u128)
        requires
            old(self)@.wf(),
        ensures
            final(self)@.wf(),
            final(self)@ == spec_delete(old(self)@, post_id),
    {
        let ghost old_view = self@;
        let mut i: usize = 0;
        while i < self.posts.len()
            invariant
                i <= self.posts@.len(),
                self.posts@.len() == old_view.posts.len(),
                self@.message_ids == old_view.message_ids,
                self@.upload_tasks == old_view.upload_tasks,
                self@.wake_pending == old_view.wake_pending,
                forall|j: int|
                    0 <= j < i ==> #[trigger] self@.posts[j] == del_one(old_view.posts[j], post_id),
                forall|j: int|
                    i <= j < self.posts@.len() ==> #[trigger] self@.posts[j] == old_view.posts[j],
            decreases self.posts@.len() - i,
        {
            let ghost prev = self@;
            if self.posts[i].id == post_id && !self.posts[i].deleted {
                let mut p = self.posts[i].clone();
                p.deleted = true;
                self.posts[i] = p;
                proof {
                    assert(self@.posts[i as int] == p@);
                    assert(forall|j: int|
                        0 <= j < prev.posts.len() && j != i ==> #[trigger] self@.posts[j]
                            == prev.posts[j]);
                    assert(prev.posts[i as int] == old_view.posts[i as int]);
                    assert(p@.id == old_view.posts[i as int].id);
                    assert(p@.file_id == old_view.posts[i as int].file_id);
                    assert(p@.image_hash == old_view.posts[i as int].image_hash);
                    assert(p@.deleted == true);
                    assert(p@ == del_one(old_view.posts[i as int], post_id));
                }
            }
            proof {
                assert(self@.posts[i as int] == del_one(old_view.posts[i as int], post_id));
            }
            i = i + 1;
        }
        proof {
            assert(self@.posts =~= spec_delete(old_view, post_id).posts);
            assert(self@ =~= spec_delete(old_view, post_id));
            assert(final(self)@.wf()) by {
                assert(forall|j: int|
                    0 <= j < self@.posts.len() ==> (#[trigger] self@.posts[j]).id
                        == old_view.posts[j].id);
            }
        }
    }

    /// Stages an upload task under a fresh identifier and raises the wake
    /// signal; refuses an identifier collision, leaving the store
    /// unchanged.
    pub fn create_upload_task(
        &mut self,
        media_type: MediaType,
        data: Vec<u8>,
        image_hash: Option<String>,
        now: i64,
    ) -> (r: Result<UploadTask, StoreError>)
        requires
            old(self)@.wf(),
            media_type == MediaType::Photo ==> image_hash is Some,
        ensures
            final(self)@.wf(),
            r matches Result::Ok(t) ==> !task_id_taken(old(self)@, t@.id) && final(self)@
                == spec_create_task(
                old(self)@,
                t@.id,
                media_type,
                data@,
                opt_str_v(image_hash),
                now,
            ) && t@ == new_task_v(t@.id, media_type, data@, opt_str_v(image_hash), now),
            r is Err ==> final(self)@ == old(self)@,
    {
        let id = fresh_raw_id();
        if self.task_id_exists(id) {
            return Result::Err(StoreError::IdConflict);
        }
        let task = UploadTask {
            id,
            media_type,
            data,
            is_processed: false,
            created_datetime: now,
            processed_datetime: Option::None,
            image_hash,
        };
        let ret = task.clone();
        let ghost old_view = self@;
        self.upload_tasks.push(task);
        self.wake_pending = true;
        proof {
            assert(self@.upload_tasks =~= old_view.upload_tasks.push(
                new_task_v(id, media_type, data@, opt_str_v(image_hash), now),
            ));
            assert(self@ =~= spec_create_task(
                old_view,
                id,
                media_type,
                data@,
                opt_str_v(image_hash),
                now,
            ));
        }
        Result::Ok(ret)
    }

    /// One unprocessed staged task (the oldest by store order), or none.
    pub fn fetch_unprocessed_upload_task(&self) -> (r: Option<UploadTask>)
        ensures
            r is Some <==> has_unprocessed_task(self@),
            r matches Option::Some(t) ==> !t@.is_processed && exists|i: int|
                0 <= i < self@.upload_tasks.len() && #[trigger] self@.upload_tasks[i] == t@,
    {
        let mut i: usize = 0;
        while i < self.upload_tasks.len()
            invariant
                i <= self.upload_tasks@.len(),
                self@.upload_tasks.len() == self.upload_tasks@.len(),
                forall|j: int| 0 <= j < i ==> (#[trigger] self@.upload_tasks[j]).is_processed,
            decreases self.upload_tasks@.len() - i,
        {
            let t = &self.upload_tasks[i];
            if !t.is_processed {
                assert(!(#[trigger] self@.upload_tasks[i as int]).is_processed);
                return Option::Some(t.clone());
            }
            i = i + 1;
        }
        Option::None
    }

    /// Marks a staged task complete: terminal flag set, payload cleared
    /// to reclaim space, processed timestamp set once. Idempotent.
    pub fn mark_complete_upload_task(&mut self, id: u128, now: i64)
        requires
            old(self)@.wf(),
        ensures
            final(self)@.wf(),
            final(self)@ == spec_mark_task_complete(old(self)@, id, now),
    {
        let ghost old_view = self@;
        let mut i: usize = 0;
        while i < self.upload_tasks.len()
            invariant
                i <= self.upload_tasks@.len(),
                self.upload_tasks@.len() == old_view.upload_tasks.len(),
                self@.posts == old_view.posts,
                self@.message_ids == old_view.message_ids,
                self@.wake_pending == old_view.wake_pending,
                forall|j: int|
                    0 <= j < i ==> #[trigger] self@.upload_tasks[j] == complete_one(
                        old_view.upload_tasks[j],
                        id,
                        now,
                    ),
                forall|j: int|
                    i <= j < self.upload_tasks@.len() ==> #[trigger] self@.upload_tasks[j]
                        == old_view.upload_tasks[j],
            decreases self.upload_tasks@.len() - i,
        {
            let ghost prev = self@;
            if self.upload_tasks[i].id == id && !self.upload_tasks[i].is_processed {
                let hash = match &self.upload_tasks[i].image_hash {
                    Option::Some(h) => Option::Some(h.clone()),
                    Option::None => Option::None,
                };
                let t = UploadTask {
                    id: self.upload_tasks[i].id,
                    media_type: self.upload_tasks[i].media_type,
                    data: Vec::new(),
                    is_processed: true,
                    created_datetime: self.upload_tasks[i].created_datetime,
                    processed_datetime: Option::Some(now),
                    image_hash: hash,
                };
                self.upload_tasks[i] = t;
                proof {
                    assert(self@.upload_tasks[i as int] == t@);
                    assert(forall|j: int|
                        0 <= j < prev.upload_tasks.len() && j != i ==> #[trigger] self@.upload_tasks[j]
                            == prev.upload_tasks[j]);
                    assert(prev.upload_tasks[i as int] == old_view.upload_tasks[i as int]);
                    assert(t@.id == old_view.upload_tasks[i as int].id);
                    assert(t@.media_type == old_view.upload_tasks[i as int].media_type);
                    assert(t@.image_hash == old_view.upload_tasks[i as int].image_hash);
                    assert(t@.created_datetime == old_view.upload_tasks[i as int].created_datetime);
                    assert(t@.data =~= Seq::<u8>::empty());
                    assert(t@.is_processed == true);
                    assert(t@.processed_datetime == Option::<i64>::Some(now));
                    assert(t@ == complete_one(old_view.upload_tasks[i as int], id, now));
                }
            }
            proof {
                assert(self@.upload_tasks[i as int] == complete_one(
                    old_view.upload_tasks[i as int],
                    id,
                    now,
                ));
            }
            i = i + 1;
        }
        proof {
            assert(self@.upload_tasks =~= spec_mark_task_complete(old_view, id, now).upload_tasks);
            assert(self@ =~= spec_mark_task_complete(old_view, id, now));
            assert(final(self)@.wf()) by {
                assert(forall|j: int|
                    0 <= j < self@.upload_tasks.len() ==> (#[trigger] self@.upload_tasks[j]).id
                        == old_view.upload_tasks[j].id
                        && self@.upload_tasks[j].media_type
                        == old_view.upload_tasks[j].media_type
                        && (self@.upload_tasks[j].image_hash is Some
                        <== old_view.upload_tasks[j].image_hash is Some));
            }
        }
    }

    /// The staged task carrying `id`, or none.
    pub fn fetch_task_by_id(&self, id: u128) -> (r: Option<UploadTask>)
        requires
            self@.wf(),
        ensures
            r is Some <==> task_id_taken(self@, id),
            r matches Option::Some(t) ==> t@ == self@.upload_tasks[task_index_of(self@, id)]
                && t@.id == id,
    {
        let mut i: usize = 0;
        while i < self.upload_tasks.len()
            invariant
                i <= self.upload_tasks@.len(),
                self@.wf(),
                self@.upload_tasks.len() == self.upload_tasks@.len(),
                forall|j: int| 0 <= j < i ==> (#[trigger] self@.upload_tasks[j]).id != id,
            decreases self.upload_tasks@.len() - i,
        {
            let t = &self.upload_tasks[i];
            if t.id == id {
                proof {
                    assert((#[trigger] self@.upload_tasks[i as int]).id == id);
                    let k = task_index_of(self@, id);
                    assert(0 <= k < self@.upload_tasks.len() && self@.upload_tasks[k].id == id);
                    assert(k == i as int);
                }
                return Option::Some(t.clone());
            }
            i = i + 1;
        }
        Option::None
    }

    /// Consumes the single-slot wake signal, reporting whether one was
    /// pending. Several signals raised since the last take are observed
    /// as one.
    pub fn take_wake(&mut self) -> (was: bool)
        ensures
            was == old(self)@.wake_pending,
            final(self)@ == (DatabaseV { wake_pending: false, ..old(self)@ }),
    {
        let was = self.wake_pending;
        self.wake_pending = false;
        proof {
            assert(self@ =~= (DatabaseV { wake_pending: false, ..old(self)@ }));
        }
        was
    }
}

/// The index of the task carrying `id`; meaningful when such a task
/// exists and, under well-formedness, unique.
pub open spec fn task_index_of(s: DatabaseV, id: u128) -> int {
    choose|i: int| 0 <= i < s.upload_tasks.len() && (#[trigger] s.upload_tasks[i]).id == id
}

/// The fingerprint of the task carrying `id`; meaningful when that task
/// exists and carries one (every photo task does, by well-formedness).
pub open spec fn task_hash_of(s: DatabaseV, id: u128) -> Seq<char> {
    s.upload_tasks[task_index_of(s, id)].image_hash.unwrap()
}

/// Index of the `j`-th element when walking a list of length `n`
/// cyclically from `base`; with `base < n` and `j < n` it wraps at most
/// once.
pub open spec fn rot_idx(base: int, j: int, n: int) -> int {
    if base + j < n {
        base + j
    } else {
        base + j - n
    }
}

/// Membership scan for a bulk id list.
fn contains_id(ids: &Vec<u128>, id: u128) -> (r: bool)
    ensures
        r == ids@.contains(id),
{
    let mut i: usize = 0;
    while i < ids.len()
        invariant
            i <= ids@.len(),
            forall|j: int| 0 <= j < i ==> ids@[j] != id,
        decreases ids@.len() - i,
    {
        if ids[i] == id {
            return true;
        }
        i = i + 1;
    }
    false
}

/// The publish-eligible posts that carry a given identifier.
pub open spec fn unsent_with_id(posts: Seq<PostV>, id: u128) -> Seq<PostV> {
    posts.filter(|p: PostV| post_unsent(p) && p.id == id)
}

/// Law: bulk mark-sent is idempotent. Re-applying it with the same ids
/// changes nothing, whatever timestamp the repetition carries: a post
/// already sent is never re-marked and its sent timestamp is never
/// overwritten.
pub proof fn lemma_mark_sent_idempotent(s: DatabaseV, ids: Seq<u128>, t1: i64, t2: i64)
    ensures
        spec_mark_sent(spec_mark_sent(s, ids, t1), ids, t2) == spec_mark_sent(s, ids, t1),
{
    let s1 = spec_mark_sent(s, ids, t1);
    let s2 = spec_mark_sent(s1, ids, t2);
    assert forall|i: int| 0 <= i < s1.posts.len() implies s2.posts[i] == s1.posts[i] by {
        assert(s1.posts[i] == mark_one(s.posts[i], ids, t1));
        assert(s2.posts[i] == mark_one(s1.posts[i], ids, t2));
    }
    assert(s2.posts =~= s1.posts);
    assert(s2 =~= s1);
}

/// Law: soft delete is idempotent — deleting an already deleted (or
/// absent) post changes nothing.
pub proof fn lemma_delete_idempotent(s: DatabaseV, id: u128)
    ensures
        spec_delete(spec_delete(s, id), id) == spec_delete(s, id),
{
    let s1 = spec_delete(s, id);
    let s2 = spec_delete(s1, id);
    assert forall|i: int| 0 <= i < s1.posts.len() implies s2.posts[i] == s1.posts[i] by {
        assert(s1.posts[i] == del_one(s.posts[i], id));
        assert(s2.posts[i] == del_one(s1.posts[i], id));
    }
    assert(s2.posts =~= s1.posts);
    assert(s2 =~= s1);
}

/// Law: completing a staged task is idempotent — a terminal task is
/// never touched again, whatever timestamp the repetition carries.
pub proof fn lemma_mark_task_complete_idempotent(s: DatabaseV, id: u128, t1: i64, t2: i64)
    ensures
        spec_mark_task_complete(spec_mark_task_complete(s, id, t1), id, t2)
            == spec_mark_task_complete(s, id, t1),
{
    let s1 = spec_mark_task_complete(s, id, t1);
    let s2 = spec_mark_task_complete(s1, id, t2);
    assert forall|i: int| 0 <= i < s1.upload_tasks.len() implies s2.upload_tasks[i]
        == s1.upload_tasks[i] by {
        assert(s1.upload_tasks[i] == complete_one(s.upload_tasks[i], id, t1));
        assert(s2.upload_tasks[i] == complete_one(s1.upload_tasks[i], id, t2));
    }
    assert(s2.upload_tasks =~= s1.upload_tasks);
    assert(s2 =~= s1);
}

/// Law: a soft delete retains the row but takes the post out of every
/// read path. After `spec_delete(s, id)`: the post list keeps its
/// length and every other post is untouched; the deleted post matches
/// no fingerprint lookup and is not publish-eligible; and the unsent
/// count drops by exactly the deleted post's former contribution.
pub proof fn lemma_delete_post_excluded(s: DatabaseV, id: u128)
    ensures
        spec_delete(s, id).posts.len() == s.posts.len(),
        forall|i: int|
            0 <= i < s.posts.len() && (#[trigger] s.posts[i]).id != id ==> spec_delete(
                s,
                id,
            ).posts[i] == s.posts[i],
        forall|i: int, h: Seq<char>|
            0 <= i < s.posts.len() && (#[trigger] spec_delete(s, id).posts[i]).id == id ==> !(
            #[trigger] hash_matches(spec_delete(s, id).posts[i], h)),
        forall|i: int|
            0 <= i < s.posts.len() && (#[trigger] spec_delete(s, id).posts[i]).id == id
                ==> !post_unsent(spec_delete(s, id).posts[i]),
        spec_unsent_count(spec_delete(s, id)) + unsent_with_id(s.posts, id).len()
            == spec_unsent_count(s),
{
    lemma_unsent_count_del(s.posts, id);
    assert(spec_delete(s, id).posts =~= s.posts.map_values(|p: PostV| del_one(p, id)));
}

/// Induction core of the delete law: filtering out a post's eligibility
/// by soft delete removes exactly its own contribution to the eligible
/// list.
proof fn lemma_unsent_count_del(posts: Seq<PostV>, id: u128)
    ensures
        unsent_of(posts.map_values(|p: PostV| del_one(p, id))).len() + unsent_with_id(
            posts,
            id,
        ).len() == unsent_of(posts).len(),
    decreases posts.len(),
{
    let f = |p: PostV| del_one(p, id);
    if posts.len() == 0 {
        assert(posts.map_values(f) =~= posts);
    } else {
        let rest = posts.drop_last();
        let last = posts.last();
        lemma_unsent_count_del(rest, id);
        assert(posts =~= rest.push(last));
        assert(posts.map_values(f) =~= rest.map_values(f).push(del_one(last, id)));
        rest.lemma_filter_push(last, |p: PostV| post_unsent(p));
        rest.lemma_filter_push(last, |p: PostV| post_unsent(p) && p.id == id);
        rest.map_values(f).lemma_filter_push(del_one(last, id), |p: PostV| post_unsent(p));
        assert(unsent_of(posts) == unsent_of(rest.push(last)));
        assert(unsent_with_id(posts, id) == unsent_with_id(rest.push(last), id));
    }
}

/// A task is unprocessed exactly when the unprocessed count is positive.
pub proof fn lemma_has_unprocessed_iff_count(s: DatabaseV)
    ensures
        has_unprocessed_task(s) <==> unprocessed_count(s) > 0,
{
    if has_unprocessed_task(s) {
        let i = choose|i: int|
            0 <= i < s.upload_tasks.len() && !(#[trigger] s.upload_tasks[i]).is_processed;
        s.upload_tasks.lemma_filter_contains(|t: UploadTaskV| !t.is_processed, i);
    }
    if unprocessed_count(s) > 0 {
        s.upload_tasks.lemma_filter_pred(|t: UploadTaskV| !t.is_processed, 0);
        s.upload_tasks.lemma_filter_contains_rev(
            |t: UploadTaskV| !t.is_processed,
            unprocessed_of(s.upload_tasks)[0],
        );
        let t = unprocessed_of(s.upload_tasks)[0];
        let j = choose|j: int| 0 <= j < s.upload_tasks.len() && s.upload_tasks[j] == t;
        assert(!(#[trigger] s.upload_tasks[j]).is_processed);
    }
}

/// Completing a task removes exactly the unprocessed tasks carrying its
/// identifier from the unprocessed count.
pub proof fn lemma_unprocessed_count_complete(tasks: Seq<UploadTaskV>, id: u128, now: i64)
    ensures
        unprocessed_of(tasks.map_values(|t: UploadTaskV| complete_one(t, id, now))).len()
            + tasks.filter(|t: UploadTaskV| !t.is_processed && t.id == id).len()
            == unprocessed_of(tasks).len(),
    decreases tasks.len(),
{
    let f = |t: UploadTaskV| complete_one(t, id, now);
    if tasks.len() == 0 {
        assert(tasks.map_values(f) =~= tasks);
    } else {
        let rest = tasks.drop_last();
        let last = tasks.last();
        lemma_unprocessed_count_complete(rest, id, now);
        assert(tasks =~= rest.push(last));
        assert(tasks.map_values(f) =~= rest.map_values(f).push(complete_one(last, id, now)));
        rest.lemma_filter_push(last, |t: UploadTaskV| !t.is_processed);
        rest.lemma_filter_push(last, |t: UploadTaskV| !t.is_processed && t.id == id);
        rest.map_values(f).lemma_filter_push(
            complete_one(last, id, now),
            |t: UploadTaskV| !t.is_processed,
        );
        assert(unprocessed_of(tasks) == unprocessed_of(rest.push(last)));
        assert(tasks.filter(|t: UploadTaskV| !t.is_processed && t.id == id) == rest.push(
            last,
        ).filter(|t: UploadTaskV| !t.is_processed && t.id == id));
    }
}

/// One step of the eligibility filters over a prefix of the post list.
proof fn lemma_eligible_take_step(posts: Seq<PostV>, i: int)
    requires
        0 <= i < posts.len(),
    ensures
        unsent_of(posts.take(i + 1)) == if post_unsent(posts[i]) {
            unsent_of(posts.take(i)).push(posts[i])
        } else {
            unsent_of(posts.take(i))
        },
        unsent_photos_of(posts.take(i + 1)) == if unsent_photo(posts[i]) {
            unsent_photos_of(posts.take(i)).push(posts[i])
        } else {
            unsent_photos_of(posts.take(i))
        },
{
    assert(posts.take(i + 1) =~= posts.take(i).push(posts[i]));
    posts.take(i).lemma_filter_push(posts[i], |q: PostV| post_unsent(q));
    posts.take(i).lemma_filter_push(posts[i], |q: PostV| unsent_photo(q));
}

} // verus!
