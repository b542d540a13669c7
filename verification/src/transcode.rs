//! The optional re-encoding path: pixels that were decoded from an image
//! file and brought to 8-bit RGB are written out again as PNG before they
//! are sent. Encoding is the `image` crate's work; what is checked here is
//! what is done before it and with its outcome. Decoding is the caller's.

use vstd::prelude::*;

verus! {

/// Why pixels could not be re-encoded.
#[derive(Clone, Copy, Debug, PartialEq, Eq, Structural)]
pub enum TranscodeError {
    /// The pixels do not fill the configured width and height.
    WrongSize,
    /// The encoder refused the image.
    Unencodable,
}

/// The PNG file that `image` 0.24 writes, with its default compression and
/// filter, for 8-bit RGB pixels of the given width and height. `None` where
/// the encoder fails.
pub uninterp spec fn png_of_rgb8(pixels: Seq<u8>, width: u32, height: u32) -> Option<Seq<u8>>;

/// The eight bytes that every PNG file begins with.
pub open spec fn png_signature() -> Seq<u8> {
    seq![137u8, 80u8, 78u8, 71u8, 13u8, 10u8, 26u8, 10u8]
}

/// Whether bytes begin as a PNG file does.
pub open spec fn starts_as_png(bytes: Seq<u8>) -> bool {
    bytes.len() >= 8 && bytes.subrange(0, 8) == png_signature()
}

/// Whether a buffer of `len` bytes holds exactly `width` times `height`
/// pixels of three bytes.
pub open spec fn fits(len: nat, width: u32, height: u32) -> bool {
    len == width * height * 3
}

/// What re-encoding pixels comes to.
pub open spec fn reencoded(pixels: Seq<u8>, width: u32, height: u32) -> Result<
    Seq<u8>,
    TranscodeError,
> {
    if !fits(pixels.len(), width, height) {
        Err(TranscodeError::WrongSize)
    } else {
        match png_of_rgb8(pixels, width, height) {
            Some(png) => Ok(png),
            None => Err(TranscodeError::Unencodable),
        }
    }
}

/// Whether a result holds the bytes, or the error, that `expected` names.
pub open spec fn agrees(got: Result<Vec<u8>, TranscodeError>, expected: Result<
    Seq<u8>,
    TranscodeError,
>) -> bool {
    match got {
        Ok(bytes) => expected == Ok::<Seq<u8>, TranscodeError>(bytes@),
        Err(error) => expected == Err::<Seq<u8>, TranscodeError>(error),
    }
}

/// Encodes 8-bit RGB pixels as PNG with
/// `image::codecs::png::PngEncoder::write_image` into a new
/// `bytebuffer::ByteBuffer`, and hands back the buffer's bytes. The encoder
/// panics on a buffer that does not fit width and height, so that is
/// required. Trusted: the outcome is the one that `png_of_rgb8` names, and
/// what is written begins with the PNG signature, which the encoder writes
/// before anything else.
#[verifier::external_body]
fn encode_png(pixels: &[u8], width: u32, height: u32) -> (png: Option<Vec<u8>>)
    requires
        fits(pixels@.len(), width, height),
    ensures
        png matches Some(written) ==> png_of_rgb8(pixels@, width, height) == Some(written@),
        png matches Some(written) ==> starts_as_png(written@),
        png is None ==> png_of_rgb8(pixels@, width, height) is None,
{
    let mut buffer = bytebuffer::ByteBuffer::new();
    let encoder = image::codecs::png::PngEncoder::new(std::io::Write::by_ref(&mut buffer));
    match image::ImageEncoder::write_image(encoder, pixels, width, height, image::ColorType::Rgb8) {
        Ok(()) => Some(buffer.to_bytes()),
        Err(_) => None,
    }
}

/// Whether a buffer of `len` bytes holds exactly `width` times `height`
/// pixels of three bytes.
pub fn buffer_fits(len: usize, width: u32, height: u32) -> (fitting: bool)
    ensures
        fitting == fits(len as nat, width, height),
{
    assert(width * height <= 0xffff_ffff * 0xffff_ffff) by (nonlinear_arith)
        requires
            0 <= width <= 0xffff_ffff,
            0 <= height <= 0xffff_ffff,
    ;
    let area: u64 = (width as u64) * (height as u64);
    (len as u128) == (area as u128) * 3
}

/// Writes decoded pixels out as PNG of the given width and height. Pixels
/// that do not fill them are refused before the encoder sees them.
pub fn reencode(pixels: &Vec<u8>, width: u32, height: u32) -> (png: Result<Vec<u8>, TranscodeError>)
    ensures
        agrees(png, reencoded(pixels@, width, height)),
        png matches Ok(bytes) ==> starts_as_png(bytes@),
{
    if !buffer_fits(pixels.len(), width, height) {
        return Err(TranscodeError::WrongSize);
    }
    match encode_png(pixels.as_slice(), width, height) {
        Some(written) => Ok(written),
        None => Err(TranscodeError::Unencodable),
    }
}

} // verus!
