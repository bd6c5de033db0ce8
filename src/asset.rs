use vstd::prelude::*;

use crate::text::ends_with;

verus! {

/// Why a scene description cannot be loaded.
#[derive(Clone, Copy, Debug, PartialEq, Eq, Structural)]
pub enum AssetError {
    /// The path does not end in `.gltf`.
    WrongExtension,
    /// A buffer holds fewer bytes than the scene description declares.
    BufferTooShort { expected: usize, got: usize },
    /// An image is neither PNG nor JPEG.
    UnsupportedImageFormat,
    /// An image file's bytes do not decode.
    UndecodableImage,
    /// A primitive refers to a material beyond the one-byte material slots.
    UnsupportedMaterialIndex { index: usize },
}

pub open spec fn has_suffix(s: Seq<char>, suffix: Seq<char>) -> bool {
    suffix.len() <= s.len() && s.subrange(s.len() - suffix.len(), s.len() as int) == suffix
}

/// Accepts only paths of glTF scene descriptions.
pub fn check_scene_path(gltf_path: &str) -> (r: Result<(), AssetError>)
    ensures
        r is Ok <==> has_suffix(gltf_path@, ".gltf"@),
        r is Err ==> r == Err::<(), AssetError>(AssetError::WrongExtension),
{
    if ends_with(gltf_path, ".gltf") {
        Ok(())
    } else {
        Err(AssetError::WrongExtension)
    }
}

/// Whether an image file name has one of the taken extensions.
pub open spec fn image_uri_ok(uri: Seq<char>) -> bool {
    has_suffix(uri, ".png"@) || has_suffix(uri, ".jpeg"@) || has_suffix(uri, ".jpg"@)
}

/// Accepts only PNG and JPEG image files.
pub fn check_image_uri(uri: &str) -> (r: Result<(), AssetError>)
    ensures
        r is Ok <==> image_uri_ok(uri@),
        r is Err ==> r == Err::<(), AssetError>(AssetError::UnsupportedImageFormat),
{
    if ends_with(uri, ".png") || ends_with(uri, ".jpeg") || ends_with(uri, ".jpg") {
        Ok(())
    } else {
        Err(AssetError::UnsupportedImageFormat)
    }
}

/// Relies on image::load_from_memory, which guesses the format from the
/// bytes and decodes them, and on DynamicImage::to_rgba8, which turns the
/// result into four bytes per pixel, row after row. The pixels may differ
/// from one machine to another (JPEG decoding picks a SIMD path at run
/// time), so only their length is stated.
#[verifier::external_body]
fn decode_rgba8(bytes: &Vec<u8>) -> (r: Option<(u32, u32, Vec<u8>)>)
    ensures
        r matches Some((w, h, p)) ==> p@.len() == w * h * 4,
{
    image::load_from_memory(bytes).ok().map(|img| {
        let rgba = img.to_rgba8();
        let (w, h) = rgba.dimensions();
        (w, h, rgba.into_raw())
    })
}

/// A texture image ready for upload: width, height and 8-bit RGBA pixels.
pub struct DecodedTexture {
    pub width: u32,
    pub height: u32,
    pub pixels: Vec<u8>,
}

/// The texture for a decoding result: the decoded image, or an error where
/// nothing decoded.
pub fn texture_from_decoding(decoded: Option<(u32, u32, Vec<u8>)>) -> (r: Result<DecodedTexture, AssetError>)
    ensures
        decoded is None ==> r == Err::<DecodedTexture, AssetError>(AssetError::UndecodableImage),
        decoded matches Some((w, h, p)) ==> r matches Ok(t) && t.width == w && t.height == h && t.pixels@
            == p@,
{
    match decoded {
        Some((width, height, pixels)) => Ok(DecodedTexture { width, height, pixels }),
        None => Err(AssetError::UndecodableImage),
    }
}

/// Decodes the texture stored at `uri`, whose file holds `bytes`; only PNG
/// and JPEG files are taken.
pub fn decode_texture(uri: &str, bytes: &Vec<u8>) -> (r: Result<DecodedTexture, AssetError>)
    ensures
        !image_uri_ok(uri@) ==> r == Err::<DecodedTexture, AssetError>(AssetError::UnsupportedImageFormat),
        image_uri_ok(uri@) && r is Err ==> r == Err::<DecodedTexture, AssetError>(AssetError::UndecodableImage),
        r matches Ok(t) ==> t.pixels@.len() == t.width * t.height * 4,
{
    match check_image_uri(uri) {
        Err(e) => Err(e),
        Ok(()) => texture_from_decoding(decode_rgba8(bytes)),
    }
}

/// Zero bytes needed to bring `len` to a multiple of four.
pub open spec fn padding_for(len: int) -> int {
    (4 - len % 4) % 4
}

/// Checks that a loaded buffer holds at least the `declared_len` bytes the
/// scene description gives it, then pads it with zeros to a multiple of
/// four bytes.
pub fn pad_buffer(data: Vec<u8>, declared_len: usize) -> (r: Result<Vec<u8>, AssetError>)
    ensures
        r is Ok <==> data@.len() >= declared_len,
        r is Err ==> r == Err::<Vec<u8>, AssetError>(
            AssetError::BufferTooShort { expected: declared_len, got: data@.len() as usize },
        ),
        r matches Ok(v) ==> v@ == data@ + Seq::new(padding_for(data@.len() as int) as nat, |i: int| 0u8),
{
    if data.len() < declared_len {
        return Err(AssetError::BufferTooShort { expected: declared_len, got: data.len() });
    }
    let mut data = data;
    let ghost loaded = data@;
    while data.len() % 4 != 0
        invariant
            loaded.len() <= data@.len() <= loaded.len() + 3,
            data@.len() - loaded.len() <= padding_for(loaded.len() as int),
            data@.len() % 4 != 0 ==> data@.len() - loaded.len() < padding_for(loaded.len() as int),
            data@ == loaded + Seq::new((data@.len() - loaded.len()) as nat, |i: int| 0u8),
        decreases loaded.len() + 3 - data@.len(),
    {
        data.push(0);
        assert(data@ =~= loaded + Seq::new((data@.len() - loaded.len()) as nat, |i: int| 0u8));
    }
    Ok(data)
}

/// A per-vertex attribute for `count` vertices: the value read for each
/// vertex where there is one, `default` past the end of what was read.
pub fn attribute_or_default<T: Copy>(values: &Vec<T>, count: usize, default: T) -> (r: Vec<T>)
    ensures
        r@.len() == count,
        forall|i: int|
            0 <= i < count ==> #[trigger] r@[i] == if i < values@.len() {
                values@[i]
            } else {
                default
            },
{
    let mut out: Vec<T> = Vec::new();
    let mut i: usize = 0;
    while i < count
        invariant
            i <= count,
            out@.len() == i,
            forall|j: int|
                0 <= j < i ==> #[trigger] out@[j] == if j < values@.len() {
                    values@[j]
                } else {
                    default
                },
        decreases count - i,
    {
        if i < values.len() {
            out.push(values[i]);
        } else {
            out.push(default);
        }
        i = i + 1;
    }
    out
}

/// The material slot of a primitive: its material's index, or 0 for the
/// default material. Slots are one byte wide, so a larger index is refused.
pub fn primitive_material_index(material: Option<usize>) -> (r: Result<u8, AssetError>)
    ensures
        material is None ==> r == Ok::<u8, AssetError>(0),
        material matches Some(i) ==> (i <= u8::MAX ==> r == Ok::<u8, AssetError>(i as u8)),
        material matches Some(i) ==> (i > u8::MAX ==> r == Err::<u8, AssetError>(
            AssetError::UnsupportedMaterialIndex { index: i },
        )),
{
    match material {
        Some(i) => if i <= u8::MAX as usize {
            Ok(i as u8)
        } else {
            Err(AssetError::UnsupportedMaterialIndex { index: i })
        },
        None => Ok(0),
    }
}

} // verus!
