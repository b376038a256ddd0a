//! The pure post-processing step applied to captured photos before they are
//! handed to the caller: an optional downscale-and-re-encode to keep the
//! payload small, followed by base64 encoding.

use vstd::prelude::*;

use base64::Engine;

use crate::types::payload_fits;

verus! {

/// Max pixel dimension (width or height) for captured photos: enough for
/// high-resolution prints while vastly reducing file size.
pub const CAPTURE_MAX_DIMENSION: u32 = 3000;

/// JPEG quality for re-encoded captures (1-100).
pub const CAPTURE_JPEG_QUALITY: u8 = 92;

/// What the standard base64 engine encodes the given bytes to.
pub uninterp spec fn base64_of(bytes: Seq<u8>) -> Seq<char>;

/// Relies on base64's `Engine::encode` with the padded standard engine: the
/// output depends on the bytes alone, four characters for every started
/// group of three bytes.
#[verifier::external_body]
fn base64_encode(bytes: &Vec<u8>) -> (r: String)
    requires
        payload_fits(bytes@.len()),
    ensures
        r@ == base64_of(bytes@),
        r@.len() == 4 * ((bytes@.len() + 2) / 3),
{
    base64::engine::general_purpose::STANDARD.encode(bytes)
}

/// What the JPEG shrink step produces for the given bytes: the image decoded,
/// scaled down to fit `max_dim` pixels on its longest side if it is larger,
/// and re-encoded as JPEG at `quality`.
pub uninterp spec fn shrunk_jpeg_of(bytes: Seq<u8>, max_dim: u32, quality: u8) -> Seq<u8>;

/// Relies on image's `load_from_memory`, `DynamicImage::resize` and
/// `JpegEncoder::new_with_quality`: a pure bytes-to-bytes transform whose
/// result depends on the arguments alone. Fails when the bytes do not decode
/// as an image.
#[verifier::external_body]
fn shrink_jpeg(bytes: &Vec<u8>, max_dim: u32, quality: u8) -> (r: Result<Vec<u8>, String>)
    requires
        1 <= quality <= 100,
    ensures
        r matches Ok(v) ==> v@ == shrunk_jpeg_of(bytes@, max_dim, quality),
{
    let img = image::load_from_memory(bytes).map_err(|e| e.to_string())?;
    let resized = if img.width() > max_dim || img.height() > max_dim {
        img.resize(max_dim, max_dim, image::imageops::FilterType::Lanczos3)
    } else {
        img
    };
    let mut buf = Vec::new();
    let encoder = image::codecs::jpeg::JpegEncoder::new_with_quality(&mut buf, quality);
    resized.write_with_encoder(encoder).map_err(|e| e.to_string())?;
    Ok(buf)
}

/// Encode a captured photo for the caller: shrink it to the capture bounds
/// and base64-encode the result; when the shrink step fails (or its output
/// would be too large to encode) the original bytes are encoded instead.
pub fn encode_capture_payload(bytes: &Vec<u8>) -> (r: String)
    requires
        payload_fits(bytes@.len()),
    ensures
        r@ == base64_of(shrunk_jpeg_of(bytes@, CAPTURE_MAX_DIMENSION, CAPTURE_JPEG_QUALITY)) || r@
            == base64_of(bytes@),
{
    match shrink_jpeg(bytes, CAPTURE_MAX_DIMENSION, CAPTURE_JPEG_QUALITY) {
        Ok(processed) => {
            if processed.len() <= usize::MAX / 4 {
                base64_encode(&processed)
            } else {
                base64_encode(bytes)
            }
        },
        Err(_) => base64_encode(bytes),
    }
}

/// Encode raw bytes for the caller without the shrink step, as the polled
/// capture path does.
pub fn encode_raw_payload(bytes: &Vec<u8>) -> (r: String)
    requires
        payload_fits(bytes@.len()),
    ensures
        r@ == base64_of(bytes@),
{
    base64_encode(bytes)
}

} // verus!
