//! The externally-submitted photo pipeline behind the HTTP endpoint:
//! decode, fingerprint, dedup-check, normalize, stage.
//!
//! The transport layer parses the request body and fetches URL payloads;
//! everything that decides — decoding, hashing, the dedup check, and the
//! staging insert — happens here. A rejected submission never reaches
//! the store.

use vstd::prelude::*;
use crate::encoding::{base64_bytes_of, base64_ok, decode_base64, jpeg_normal_form, reencode_jpeg};
use crate::hashing::{image_hash, img_decodes, phash_of};
use crate::models::MediaType;
use crate::database::{spec_create_task, spec_hash_exists, task_id_taken, Database};

verus! {

/// Why a submission was rejected, each mapped to one structured error
/// reply. The store is untouched in every case.
#[derive(Clone, Copy, PartialEq, Eq, Structural, Debug)]
pub enum SubmitError {
    /// The payload string is not valid standard base64.
    InvalidBase64,
    /// The bytes do not decode as a raster image, so no fingerprint can
    /// be computed.
    NotAnImage,
    /// A non-deleted post with the same fingerprint already exists.
    Duplicate,
    /// The store refused the staging insert.
    StoreRejected,
}

impl SubmitError {
    /// Whether this rejection is the duplicate kind, which the error
    /// reply flags separately from all other failures.
    pub fn is_duplicate(&self) -> (r: bool)
        ensures
            r == (*self == SubmitError::Duplicate),
    {
        matches!(self, SubmitError::Duplicate)
    }

    /// The human-readable reason for the structured error reply, fixed
    /// per rejection kind.
    pub fn reason(&self) -> (r: &'static str)
        ensures
            *self == SubmitError::InvalidBase64 ==> r@ == "payload is not valid base64"@,
            *self == SubmitError::NotAnImage ==> r@ == "payload does not decode as an image"@,
            *self == SubmitError::Duplicate ==> r@ == "an identical image already exists"@,
            *self == SubmitError::StoreRejected ==> r@ == "the store refused the insert"@,
            r@.len() > 0,
    {
        proof {
            reveal_strlit("payload is not valid base64");
            reveal_strlit("payload does not decode as an image");
            reveal_strlit("an identical image already exists");
            reveal_strlit("the store refused the insert");
        }
        match self {
            SubmitError::InvalidBase64 => "payload is not valid base64",
            SubmitError::NotAnImage => "payload does not decode as an image",
            SubmitError::Duplicate => "an identical image already exists",
            SubmitError::StoreRejected => "the store refused the insert",
        }
    }
}

/// Submit raw photo bytes: fingerprint them, reject duplicates, and
/// stage the normalized JPEG form for the queue drainer (which raises
/// the drainer's wake signal).
pub fn submit_photo_bytes(store: &mut Database, bytes: &Vec<u8>, now: i64) -> (r: Result<
    (),
    SubmitError,
>)
    requires
        old(store)@.wf(),
    ensures
        final(store)@.wf(),
        r == Result::<(), SubmitError>::Err(SubmitError::NotAnImage) <==> !img_decodes(bytes@),
        img_decodes(bytes@) ==> (r == Result::<(), SubmitError>::Err(SubmitError::Duplicate)
            <==> spec_hash_exists(old(store)@, phash_of(bytes@))),
        r is Err ==> final(store)@ == old(store)@,
        r != Result::<(), SubmitError>::Err(SubmitError::InvalidBase64),
        r is Ok ==> img_decodes(bytes@) && !spec_hash_exists(old(store)@, phash_of(bytes@))
            && exists|id: u128|
            !task_id_taken(old(store)@, id) && final(store)@ == spec_create_task(
                old(store)@,
                id,
                MediaType::Photo,
                jpeg_normal_form(bytes@),
                Option::Some(phash_of(bytes@)),
                now,
            ),
{
    let hash = match image_hash(bytes.as_slice()) {
        Option::Some(h) => h,
        Option::None => {
            return Result::Err(SubmitError::NotAnImage);
        },
    };
    if store.post_with_hash_exists(hash.as_str()) {
        return Result::Err(SubmitError::Duplicate);
    }
    let normalized = match reencode_jpeg(bytes.as_slice()) {
        Option::Some(v) => v,
        Option::None => {
            // Unreachable: the bytes fingerprinted above, so they decode.
            proof {
                assert(false);
            }
            return Result::Err(SubmitError::NotAnImage);
        },
    };
    match store.create_upload_task(MediaType::Photo, normalized, Option::Some(hash), now) {
        Result::Ok(t) => {
            proof {
                assert(!task_id_taken(old(store)@, t@.id));
            }
            Result::Ok(())
        },
        Result::Err(_) => Result::Err(SubmitError::StoreRejected),
    }
}

/// Submit a base64-encoded photo payload: decode it, then run the byte
/// pipeline.
pub fn submit_photo_base64(store: &mut Database, payload: &str, now: i64) -> (r: Result<
    (),
    SubmitError,
>)
    requires
        old(store)@.wf(),
    ensures
        final(store)@.wf(),
        r == Result::<(), SubmitError>::Err(SubmitError::InvalidBase64) <==> !base64_ok(payload@),
        base64_ok(payload@) ==> (r == Result::<(), SubmitError>::Err(SubmitError::NotAnImage)
            <==> !img_decodes(base64_bytes_of(payload@))),
        base64_ok(payload@) && img_decodes(base64_bytes_of(payload@)) ==> (r == Result::<
            (),
            SubmitError,
        >::Err(SubmitError::Duplicate) <==> spec_hash_exists(
            old(store)@,
            phash_of(base64_bytes_of(payload@)),
        )),
        r is Err ==> final(store)@ == old(store)@,
        r is Ok ==> base64_ok(payload@) && img_decodes(base64_bytes_of(payload@))
            && !spec_hash_exists(old(store)@, phash_of(base64_bytes_of(payload@))) && exists|
            id: u128,
        |
            !task_id_taken(old(store)@, id) && final(store)@ == spec_create_task(
                old(store)@,
                id,
                MediaType::Photo,
                jpeg_normal_form(base64_bytes_of(payload@)),
                Option::Some(phash_of(base64_bytes_of(payload@))),
                now,
            ),
{
    let bytes = match decode_base64(payload) {
        Option::Some(v) => v,
        Option::None => {
            return Result::Err(SubmitError::InvalidBase64);
        },
    };
    submit_photo_bytes(store, &bytes, now)
}

} // verus!
