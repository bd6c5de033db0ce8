use image::{ImageBuffer, Rgba};
use vstd::prelude::*;

use crate::scene::FrameError;

verus! {

/// The image crate's packed RGBA buffer, held opaquely.
#[verifier::external_body]
pub struct RgbaImage {
    pub buffer: ImageBuffer<Rgba<u8>, Vec<u8>>,
}

/// The bytes that an image holds, row after row, four per pixel.
pub uninterp spec fn rgba_bytes(img: RgbaImage) -> Seq<u8>;

/// A packed RGBA image of `width` by `height` pixels over the bytes read
/// back from the color target.
pub struct RgbaFrame {
    pub width: u32,
    pub height: u32,
    pub image: RgbaImage,
}

/// Bytes of a packed RGBA frame of `width` by `height` pixels.
pub open spec fn rgba_len(width: u32, height: u32) -> int {
    width * height * 4
}

/// Relies on image::ImageBuffer::from_raw, which takes the buffer exactly
/// when it holds at least one four-byte RGBA pixel per position, that is
/// 4 * width * height bytes or more, and keeps it unchanged as the image's
/// data.
#[verifier::external_body]
fn rgba_image_from_raw(width: u32, height: u32, buf: Vec<u8>) -> (r: Option<RgbaImage>)
    ensures
        r is Some <==> rgba_len(width, height) <= buf@.len(),
        r matches Some(img) ==> rgba_bytes(img) == buf@,
{
    ImageBuffer::from_raw(width, height, buf).map(|buffer| RgbaImage { buffer })
}

/// Whether a read-back buffer of `len` bytes is a whole frame.
fn readback_len_matches(len: usize, width: u32, height: u32) -> (r: bool)
    ensures
        r == (len == rgba_len(width, height)),
{
    proof {
        assert(width as u64 * height as u64 <= 0xffff_ffff * 0xffff_ffffu64) by (nonlinear_arith);
    }
    let pixels: u64 = width as u64 * height as u64;
    if pixels > u64::MAX / 4 {
        false
    } else {
        len as u64 == pixels * 4 && len as u64 as usize == len
    }
}

/// Turns the bytes read back from the color target into a packed RGBA
/// image of `width` by `height`; the buffer must hold exactly
/// `width * height * 4` bytes.
pub fn readback_image(buffer: Vec<u8>, width: u32, height: u32) -> (r: Result<RgbaFrame, FrameError>)
    ensures
        r is Ok <==> buffer@.len() == rgba_len(width, height),
        r matches Ok(f) ==> f.width == width && f.height == height,
        r matches Ok(f) ==> rgba_bytes(f.image) == buffer@,
        r is Err ==> r == Err::<RgbaFrame, FrameError>(
            FrameError::ReadbackSizeMismatch { width, height, actual: buffer@.len() as u64 },
        ),
{
    let actual = buffer.len();
    if !readback_len_matches(actual, width, height) {
        return Err(FrameError::ReadbackSizeMismatch { width, height, actual: actual as u64 });
    }
    match rgba_image_from_raw(width, height, buffer) {
        Some(image) => Ok(RgbaFrame { width, height, image }),
        None => Err(FrameError::ReadbackSizeMismatch { width, height, actual: actual as u64 }),
    }
}

} // verus!
