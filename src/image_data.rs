//! Decoding of a Base64-encoded image (PNG, JPEG, ...) into an RGBA8 pixel
//! buffer of the shape that a system clipboard takes.
use vstd::prelude::*;

verus! {

#[verifier::external_type_specification]
#[verifier::external_body]
pub struct ExBase64DecodeError(base64::DecodeError);

#[verifier::external_type_specification]
#[verifier::external_body]
pub struct ExImageError(image::ImageError);

/// A character that the standard Base64 alphabet uses, padding included.
pub open spec fn is_base64_symbol(c: char) -> bool {
    ('A' <= c && c <= 'Z') || ('a' <= c && c <= 'z') || ('0' <= c && c <= '9') || c == '+' || c
        == '/' || c == '='
}

/// The bytes that standard Base64 (with padding) decodes `s` to, or `None`
/// where `s` is not valid Base64.
pub uninterp spec fn base64_decoded(s: Seq<char>) -> Option<Seq<u8>>;

/// The width, height and row-major RGBA8 pixels of the image that `bytes`
/// hold (format told by its magic bytes), or `None` where they hold no image
/// that the image library decodes.
pub uninterp spec fn rgba8_decoded(bytes: Seq<u8>) -> Option<(u32, u32, Seq<u8>)>;

/// Relies on base64's `general_purpose::STANDARD.decode`: decodes standard
/// Base64 with padding, and rejects every input that holds a byte outside the
/// alphabet and `=`.
#[verifier::external_body]
fn decode_standard_base64(content: &str) -> (r: Result<Vec<u8>, base64::DecodeError>)
    ensures
        match r {
            Ok(bytes) => base64_decoded(content@) == Some(bytes@),
            Err(_) => base64_decoded(content@) is None,
        },
        (exists|i: int| 0 <= i < content@.len() && !is_base64_symbol(#[trigger] content@[i]))
            ==> r is Err,
{
    base64::Engine::decode(&base64::engine::general_purpose::STANDARD, content)
}

/// Relies on image's `load_from_memory`, `DynamicImage::to_rgba8`,
/// `ImageBuffer::dimensions` and `ImageBuffer::into_raw`: decodes an image of
/// any supported format and hands out its size and RGBA8 samples.
#[verifier::external_body]
fn load_rgba8(bytes: &[u8]) -> (r: Result<(u32, u32, Vec<u8>), image::ImageError>)
    ensures
        match r {
            Ok((width, height, pixels)) => rgba8_decoded(bytes@) == Some((width, height, pixels@)),
            Err(_) => rgba8_decoded(bytes@) is None,
        },
{
    match image::load_from_memory(bytes) {
        Ok(img) => {
            let rgba = img.to_rgba8();
            let (width, height) = rgba.dimensions();
            Ok((width, height, rgba.into_raw()))
        },
        Err(e) => Err(e),
    }
}

/// Why a Base64 image could not be decoded.
#[derive(Clone, Copy, PartialEq, Eq, Debug)]
pub enum B64ImageError {
    /// The text is not valid standard Base64.
    DecodeError,
    /// The decoded bytes are not an image that can be read.
    ImageFormatError,
}

/// An owned RGBA8 image: `width * height` pixels of four bytes each, row
/// after row, with no padding between rows.
#[derive(Debug)]
pub struct PixelBuffer {
    pub width: usize,
    pub height: usize,
    pub bytes: Vec<u8>,
}

impl PixelBuffer {
    /// The byte count matches the dimensions.
    pub open spec fn wf(&self) -> bool {
        self.bytes@.len() == self.width * self.height * 4
    }

    /// The buffer of a `width` × `height` image with RGBA8 samples `bytes`,
    /// or `None` where the byte count is not `width * height * 4`.
    pub fn from_rgba8(width: u32, height: u32, bytes: Vec<u8>) -> (r: Option<PixelBuffer>)
        ensures
            r is Some <==> bytes@.len() == width * height * 4,
            r matches Some(b) ==> b.width == width && b.height == height && b.bytes@ == bytes@
                && b.wf(),
    {
        let w: u64 = width as u64;
        let h: u64 = height as u64;
        assert(w * h <= 0xffff_ffff_u64 * 0xffff_ffff_u64) by (nonlinear_arith)
            requires
                w <= 0xffff_ffff,
                h <= 0xffff_ffff,
        ;
        let area: u64 = w * h;
        let n: usize = bytes.len();
        if area > (usize::MAX / 4) as u64 {
            return None;
        }
        if n as u64 == area * 4 {
            Some(PixelBuffer { width: width as usize, height: height as usize, bytes })
        } else {
            None
        }
    }
}

/// The pixel buffer that `content` describes, when it is valid Base64 of an
/// image: a `DecodeError` where it is no valid standard Base64, else an
/// `ImageFormatError` where the bytes are no decodable image.
pub open spec fn decoded_pixels(content: Seq<char>) -> Result<(u32, u32, Seq<u8>), B64ImageError> {
    match base64_decoded(content) {
        None => Err(B64ImageError::DecodeError),
        Some(bytes) => match rgba8_decoded(bytes) {
            Some((width, height, pixels)) if pixels.len() == width * height * 4 => Ok((width, height, pixels)),
            _ => Err(B64ImageError::ImageFormatError),
        },
    }
}

/// Decodes the standard-Base64 text `content` into bytes, reads them as an
/// image of whatever format their magic bytes tell, and converts it to RGBA8.
pub fn b64_to_img_data(content: &str) -> (r: Result<PixelBuffer, B64ImageError>)
    ensures
        match decoded_pixels(content@) {
            Ok((width, height, pixels)) => r matches Ok(b) && b.width == width && b.height == height
                && b.bytes@ == pixels,
            Err(e) => r == Err::<PixelBuffer, B64ImageError>(e),
        },
        r matches Ok(b) ==> b.wf(),
        base64_decoded(content@) is None <==> r == Err::<PixelBuffer, B64ImageError>(B64ImageError::DecodeError),
        (exists|i: int| 0 <= i < content@.len() && !is_base64_symbol(#[trigger] content@[i]))
            ==> r == Err::<PixelBuffer, B64ImageError>(B64ImageError::DecodeError),
        (base64_decoded(content@) matches Some(bytes) && rgba8_decoded(bytes) is None)
            ==> r == Err::<PixelBuffer, B64ImageError>(B64ImageError::ImageFormatError),
{
    let bytes = match decode_standard_base64(content) {
        Ok(bytes) => bytes,
        Err(_) => return Err(B64ImageError::DecodeError),
    };
    let (width, height, pixels) = match load_rgba8(bytes.as_slice()) {
        Ok(image) => image,
        Err(_) => return Err(B64ImageError::ImageFormatError),
    };
    match PixelBuffer::from_rgba8(width, height, pixels) {
        Some(buffer) => Ok(buffer),
        None => Err(B64ImageError::ImageFormatError),
    }
}

} // verus!
