//! The durable record types: posts, their message locations, and staged
//! upload tasks, together with their mathematical views.

use vstd::prelude::*;

verus! {

/// Closed tag of the media kinds the service accepts.
#[derive(Clone, Copy, PartialEq, Eq, Structural, Debug)]
pub enum MediaType {
    Photo,
    Video,
    Animation,
}

/// A published-or-publishable media item.
pub struct Post {
    /// Unique identifier, assigned at creation.
    pub id: u128,
    pub media_type: MediaType,
    /// Opaque handle to the binary content on the remote platform.
    pub file_id: String,
    /// Once true, never reset.
    pub is_sent: bool,
    /// Creation timestamp (seconds since the epoch).
    pub created_datetime: i64,
    /// Set exactly once, when the post is first marked sent.
    pub sent_datetime: Option<i64>,
    /// Perceptual fingerprint; populated only for photos.
    pub image_hash: Option<String>,
    /// Soft-delete flag: a deleted post is excluded from every lookup
    /// but its row is retained.
    pub deleted: bool,
}

/// Mathematical view of a `Post`.
pub struct PostV {
    pub id: u128,
    pub media_type: MediaType,
    pub file_id: Seq<char>,
    pub is_sent: bool,
    pub created_datetime: i64,
    pub sent_datetime: Option<i64>,
    pub image_hash: Option<Seq<char>>,
    pub deleted: bool,
}

impl View for Post {
    type V = PostV;

    open spec fn view(&self) -> PostV {
        PostV {
            id: self.id,
            media_type: self.media_type,
            file_id: self.file_id@,
            is_sent: self.is_sent,
            created_datetime: self.created_datetime,
            sent_datetime: self.sent_datetime,
            image_hash: match self.image_hash {
                Option::Some(h) => Option::Some(h@),
                Option::None => Option::None,
            },
            deleted: self.deleted,
        }
    }
}

impl Clone for Post {
    fn clone(&self) -> (res: Self)
        ensures
            res@ == self@,
    {
        Post {
            id: self.id,
            media_type: self.media_type,
            file_id: self.file_id.clone(),
            is_sent: self.is_sent,
            created_datetime: self.created_datetime,
            sent_datetime: self.sent_datetime,
            image_hash: match &self.image_hash {
                Option::Some(h) => Option::Some(h.clone()),
                Option::None => Option::None,
            },
            deleted: self.deleted,
        }
    }
}

impl MediaType {
    /// The wire tag of this media kind, as the store schema spells it.
    pub fn tag(&self) -> (r: &'static str)
        ensures
            *self == MediaType::Photo ==> r@ == "photo"@,
            *self == MediaType::Video ==> r@ == "video"@,
            *self == MediaType::Animation ==> r@ == "anim"@,
    {
        match self {
            MediaType::Photo => "photo",
            MediaType::Video => "video",
            MediaType::Animation => "anim",
        }
    }
}

impl Post {
    /// Whether this post carries photo media.
    pub fn is_photo(&self) -> (r: bool)
        ensures
            r == (self@.media_type == MediaType::Photo),
    {
        self.media_type == MediaType::Photo
    }
}

/// One message location associated with a post: its origin or a
/// duplicate-notice reply. The (chat_id, message_id) pair is unique
/// across the whole store; entries are never mutated or deleted.
#[derive(Clone, Copy, PartialEq, Eq, Structural, Debug)]
pub struct PostMessageId {
    pub chat_id: i64,
    pub message_id: i32,
    pub post_id: u128,
}

/// A staged externally submitted media blob awaiting conversion into a post.
pub struct UploadTask {
    pub id: u128,
    pub media_type: MediaType,
    /// Payload bytes; cleared when the task is processed.
    pub data: Vec<u8>,
    /// Terminal flag: set exactly once, never reset.
    pub is_processed: bool,
    pub created_datetime: i64,
    pub processed_datetime: Option<i64>,
    pub image_hash: Option<String>,
}

/// Mathematical view of an `UploadTask`.
pub struct UploadTaskV {
    pub id: u128,
    pub media_type: MediaType,
    pub data: Seq<u8>,
    pub is_processed: bool,
    pub created_datetime: i64,
    pub processed_datetime: Option<i64>,
    pub image_hash: Option<Seq<char>>,
}

impl View for UploadTask {
    type V = UploadTaskV;

    open spec fn view(&self) -> UploadTaskV {
        UploadTaskV {
            id: self.id,
            media_type: self.media_type,
            data: self.data@,
            is_processed: self.is_processed,
            created_datetime: self.created_datetime,
            processed_datetime: self.processed_datetime,
            image_hash: match self.image_hash {
                Option::Some(h) => Option::Some(h@),
                Option::None => Option::None,
            },
        }
    }
}

impl Clone for UploadTask {
    fn clone(&self) -> (res: Self)
        ensures
            res@ == self@,
    {
        UploadTask {
            id: self.id,
            media_type: self.media_type,
            data: self.data.clone(),
            is_processed: self.is_processed,
            created_datetime: self.created_datetime,
            processed_datetime: self.processed_datetime,
            image_hash: match &self.image_hash {
                Option::Some(h) => Option::Some(h.clone()),
                Option::None => Option::None,
            },
        }
    }
}

} // verus!
