//! Byte-level codecs used at the submission boundary: base64 decoding of
//! request payloads and the normalizing JPEG re-encode applied to accepted
//! images before staging.

use base64::Engine;
use vstd::prelude::*;

verus! {

/// Whether the character string is valid standard base64 (padded alphabet).
/// Names the success of base64's standard-engine decode, which depends on
/// the characters alone.
pub uninterp spec fn base64_ok(s: Seq<char>) -> bool;

/// The bytes a valid standard-base64 string decodes to. Names the result
/// of base64's standard-engine decode; meaningful only when `base64_ok(s)`.
pub uninterp spec fn base64_bytes_of(s: Seq<char>) -> Seq<u8>;

/// The normalized form of a decodable image: resized to fit 2000x2000
/// (aspect ratio preserved, Lanczos3) and re-encoded as JPEG. Names the
/// result of that pipeline, a function of the bytes alone; meaningful only
/// when `img_decodes(bytes)`.
pub uninterp spec fn jpeg_normal_form(bytes: Seq<u8>) -> Seq<u8>;

/// Decodes a standard-base64 string, or `None` if it is malformed.
///
/// Relies on base64's `STANDARD` engine: decoding succeeds exactly on
/// well-formed input and returns the encoded bytes.
#[verifier::external_body]
pub fn decode_base64(s: &str) -> (r: Option<Vec<u8>>)
    ensures
        r is Some <==> base64_ok(s@),
        r is Some ==> r.unwrap()@ == base64_bytes_of(s@),
{
    base64::engine::general_purpose::STANDARD.decode(s).ok()
}

/// Re-encodes a decodable image into its normalized JPEG form, or `None`
/// if the bytes are not a decodable image.
///
/// Relies on image::load_from_memory, DynamicImage::resize (2000x2000,
/// Lanczos3) and DynamicImage::write_to with the JPEG format; write_to
/// converts the pixel format itself and the in-memory writer cannot fail,
/// so failure means exactly that decoding failed.
#[verifier::external_body]
pub fn reencode_jpeg(bytes: &[u8]) -> (r: Option<Vec<u8>>)
    ensures
        r is Some <==> crate::hashing::img_decodes(bytes@),
        r is Some ==> r.unwrap()@ == jpeg_normal_form(bytes@),
{
    let img = image::load_from_memory(bytes).ok()?;
    let resized = img.resize(2000, 2000, image::imageops::FilterType::Lanczos3);
    let mut out: Vec<u8> = Vec::new();
    resized.write_to(&mut std::io::Cursor::new(&mut out), image::ImageFormat::Jpeg).ok()?;
    Some(out)
}

} // verus!
