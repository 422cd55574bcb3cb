//! Perceptual fingerprinting of image bytes.
//!
//! The fingerprint is the sole dedup signal: equality of the encoded
//! strings decides whether two submissions show the same content.

use imghash::ImageHasher;
use vstd::prelude::*;

verus! {

/// Whether the byte string decodes as a raster image. Names the success of
/// image::load_from_memory, which depends on the bytes alone.
pub uninterp spec fn img_decodes(bytes: Seq<u8>) -> bool;

/// The encoded perceptual fingerprint of an image given by its bytes.
/// Names the result of the perceptual hash pipeline, a function of the
/// bytes alone; meaningful only when `img_decodes(bytes)`.
pub uninterp spec fn phash_of(bytes: Seq<u8>) -> Seq<char>;

/// Computes the encoded perceptual fingerprint of the given image bytes,
/// or `None` if the bytes are not a decodable image.
///
/// Relies on image::load_from_memory to decode the bytes and on imghash's
/// `PerceptualHasher` (8x8, factor 4) to fingerprint the decoded image.
/// For that fixed shape, the hasher and the hex encoding cannot fail, so
/// failure means exactly that decoding failed; the 64-bit hash always
/// encodes as 16 hex digits, so the fingerprint has a fixed length.
#[verifier::external_body]
pub fn image_hash(bytes: &[u8]) -> (r: Option<String>)
    ensures
        r is Some <==> img_decodes(bytes@),
        r is Some ==> r.unwrap()@ == phash_of(bytes@),
        r is Some ==> r.unwrap()@.len() == 16,
{
    let img = image::load_from_memory(bytes).ok()?;
    let hasher = imghash::perceptual::PerceptualHasher::default();
    let hash = hasher.hash_from_img(&img).ok()?;
    hash.encode().ok()
}

} // verus!
