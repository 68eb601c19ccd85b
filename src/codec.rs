//! Decoding of JPEG, PNG and GIF data and encoding as WebP, in memory,
//! through the `image` crate.
use vstd::prelude::*;

verus! {

/// A decoded pixel buffer of the `image` crate, carried through unread.
#[verifier::external_type_specification]
#[verifier::external_body]
pub struct ExDynamicImage(image::DynamicImage);

/// An error of the `image` crate: unsupported format, corrupt data or a
/// failed write.
#[verifier::external_type_specification]
#[verifier::external_body]
pub struct ExImageError(image::ImageError);

/// Whether the buffer `b` decodes: its first bytes carry the signature of
/// a format the `image` crate knows, and its data decodes in that format.
pub uninterp spec fn decodes(b: Seq<u8>) -> bool;

/// Relies on `image::guess_format`, which matches the buffer's first bytes
/// against the crate's built-in signatures, followed by
/// `image::load_from_memory_with_format`, which decodes with the built-in
/// decoder of that format under the default limits. No registered hook
/// takes part, so success depends on the buffer alone.
#[verifier::external_body]
fn decode(contents: &[u8]) -> (r: Result<image::DynamicImage, image::ImageError>)
    ensures
        r is Ok <==> decodes(contents@),
{
    image::load_from_memory_with_format(contents, image::guess_format(contents)?)
}

/// Whether `b` opens as a WebP file does: `RIFF`, the four bytes of the
/// chunk size, then `WEBP`.
pub open spec fn is_webp_container(b: Seq<u8>) -> bool {
    &&& b.len() >= 12
    &&& b.subrange(0, 4) == seq![0x52u8, 0x49u8, 0x46u8, 0x46u8]
    &&& b.subrange(8, 12) == seq![0x57u8, 0x45u8, 0x42u8, 0x50u8]
}

/// Relies on `image::DynamicImage::write_to` with `ImageFormat::WebP`: the
/// WebP encoding of a decoded image, written into an empty buffer. Its
/// encoder (`image_webp::WebPEncoder::encode`) writes the RIFF header first
/// in either container form.
#[verifier::external_body]
fn encode_webp(img: &image::DynamicImage) -> (r: Result<Vec<u8>, image::ImageError>)
    ensures
        r matches Ok(b) ==> is_webp_container(b@),
{
    let mut out = std::io::Cursor::new(Vec::new());
    img.write_to(&mut out, image::ImageFormat::WebP).map(|_| out.into_inner())
}

/// Why a buffer could not be turned into WebP.
#[derive(Clone, Copy, Debug, PartialEq, Eq, Structural)]
pub enum CodecFailure {
    /// The buffer is not an image of a decodable format.
    Decode,
    /// The decoded image could not be encoded as WebP.
    Encode,
}

/// Decodes `contents` and encodes the pixels as WebP. On failure, the
/// stage that failed and the codec's description of the cause. Contents
/// that do not decode always fail at decoding; whether a decoded image
/// encodes is the encoder's to decide.
pub fn transcode(contents: &[u8]) -> (r: Result<Vec<u8>, (CodecFailure, String)>)
    ensures
        !decodes(contents@) ==> (r matches Err((f, _)) && f == CodecFailure::Decode),
        r matches Err((f, _)) ==> (f == CodecFailure::Decode <==> !decodes(contents@)),
        r matches Ok(b) ==> is_webp_container(b@),
{
    match decode(contents) {
        Ok(img) => match encode_webp(&img) {
            Ok(bytes) => Ok(bytes),
            Err(e) => Err((CodecFailure::Encode, e.to_string())),
        },
        Err(e) => Err((CodecFailure::Decode, e.to_string())),
    }
}

} // verus!
