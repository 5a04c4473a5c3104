//! Asset loading: pulling blobs out of the packed archive and turning them
//! into texture data and mesh geometry.
//!
//! Textures live under the `textures/` folder of the archive and model text
//! under `res/`. Decoding an image is delegated to the image codec; what the
//! codec returns is named, not restated, and everything around the call is
//! verified.

use vstd::prelude::*;

verus! {

use crate::archive::{ArchiveError, spec_tar_lookup, tar_find_entry};
use vstd::string::StringSliceAdditionalSpecFns;

/// How asset loading can fail.
#[derive(Clone, Copy, Debug, PartialEq, Eq, Structural)]
pub enum AssetError {
    /// The archive holds no entry of the requested path.
    NotFound,
    /// The archive tape itself is unreadable.
    MalformedArchive,
    /// The blob exists but cannot be decoded as an image.
    Decode,
}

/// What the image codec decodes the given encoded bytes into: the pixel
/// dimensions and the tightly packed row-major RGBA bytes, or nothing when
/// the bytes are not a decodable image. Decoding is a function of the bytes
/// alone.
pub uninterp spec fn decoded_rgba8(bytes: Seq<u8>) -> Option<(nat, nat, Seq<u8>)>;

/// A decoded image: pixel dimensions and tightly packed RGBA bytes.
#[derive(Debug)]
pub struct DecodedImage {
    pub width: u32,
    pub height: u32,
    pub rgba: Vec<u8>,
}

/// Relies on image::load_from_memory followed by DynamicImage::to_rgba8 and
/// ImageBuffer::into_raw: the codec guesses the format from the bytes alone
/// and hands back a width * height * 4 RGBA buffer.
#[verifier::external_body]
fn decode_image_rgba8(bytes: &[u8]) -> (r: Result<DecodedImage, image::error::ImageError>)
    ensures
        match r {
            Result::Ok(img) => decoded_rgba8(bytes@) == Some(
                (img.width as nat, img.height as nat, img.rgba@),
            ) && img.rgba@.len() == img.width * img.height * 4,
            Result::Err(_) => decoded_rgba8(bytes@) is None,
        },
{
    let img = image::load_from_memory(bytes)?;
    let buf = img.to_rgba8();
    let width = buf.width();
    let height = buf.height();
    Ok(DecodedImage { width, height, rgba: buf.into_raw() })
}

#[verifier::external_type_specification]
#[verifier::external_body]
pub struct ExImageError(image::error::ImageError);

/// The bytes of `a` followed by the bytes of `b`.
pub fn concat_bytes(a: &[u8], b: &[u8]) -> (r: Vec<u8>)
    ensures
        r@ == a@ + b@,
{
    let mut v: Vec<u8> = Vec::new();
    let mut i: usize = 0;
    let alen: usize = a.len();
    let blen: usize = b.len();
    while i < alen
        invariant
            i <= alen,
            alen == a@.len(),
            v@ == a@.take(i as int),
        decreases alen - i,
    {
        v.push(*vstd::slice::slice_index_get(a, i));
        proof {
            assert(v@ =~= a@.take(i + 1));
        }
        i = i + 1;
    }
    let mut j: usize = 0;
    while j < blen
        invariant
            j <= blen,
            alen == a@.len(),
            blen == b@.len(),
            v@ == a@ + b@.take(j as int),
        decreases blen - j,
    {
        v.push(*vstd::slice::slice_index_get(b, j));
        proof {
            assert(v@ =~= a@ + b@.take(j + 1));
        }
        j = j + 1;
    }
    proof {
        assert(v@ =~= a@ + b@);
    }
    v
}

/// The archive path of a texture: the name under the textures/ folder.
pub open spec fn spec_texture_path(name: &str) -> Seq<u8> {
    "textures/".spec_bytes() + name.spec_bytes()
}

/// The archive path of a model description: the name under the res/ folder.
pub open spec fn spec_model_path(name: &str) -> Seq<u8> {
    "res/".spec_bytes() + name.spec_bytes()
}

/// Decoded texture data ready for a GPU upload, together with the colour
/// space the upload must use: colour textures are sRGB-encoded, normal maps
/// stay linear and must not be gamma-corrected.
#[derive(Debug)]
pub struct TextureData {
    pub width: u32,
    pub height: u32,
    pub rgba: Vec<u8>,
    pub srgb: bool,
}

/// Fetch the named texture's bytes from the textures/ folder of the archive
/// and decode them; the chosen colour space is sRGB exactly when the texture
/// is not a normal map.
pub fn load_texture(archive: &[u8], file_name: &str, is_normal_map: bool) -> (r: Result<
    TextureData,
    AssetError,
>)
    requires
        archive@.len() <= 0x1000_0000_0000_0000,
    ensures
        match r {
            Result::Ok(t) => {
                &&& spec_tar_lookup(archive@, spec_texture_path(file_name), 0) matches Ok(blob)
                    && decoded_rgba8(blob) == Some((t.width as nat, t.height as nat, t.rgba@))
                &&& t.rgba@.len() == t.width * t.height * 4
                &&& t.srgb == !is_normal_map
            },
            Result::Err(AssetError::NotFound) => spec_tar_lookup(
                archive@,
                spec_texture_path(file_name),
                0,
            ) == Err::<Seq<u8>, ArchiveError>(ArchiveError::NotFound),
            Result::Err(AssetError::MalformedArchive) => spec_tar_lookup(
                archive@,
                spec_texture_path(file_name),
                0,
            ) == Err::<Seq<u8>, ArchiveError>(ArchiveError::Malformed),
            Result::Err(AssetError::Decode) => spec_tar_lookup(
                archive@,
                spec_texture_path(file_name),
                0,
            ) matches Ok(blob) && decoded_rgba8(blob) is None,
        },
{
    let path: Vec<u8> = concat_bytes("textures/".as_bytes(), file_name.as_bytes());
    match tar_find_entry(archive, path.as_slice()) {
        Result::Err(ArchiveError::NotFound) => Result::Err(AssetError::NotFound),
        Result::Err(ArchiveError::Malformed) => Result::Err(AssetError::MalformedArchive),
        Result::Ok(blob) => match decode_image_rgba8(blob.as_slice()) {
            Result::Err(_) => Result::Err(AssetError::Decode),
            Result::Ok(img) => Result::Ok(
                TextureData {
                    width: img.width,
                    height: img.height,
                    rgba: img.rgba,
                    srgb: !is_normal_map,
                },
            ),
        },
    }
}

/// Fetch the text of the named model description from the res/ folder of
/// the archive. A missing model is a reported failure, as every missing
/// asset is.
pub fn load_model_text(archive: &[u8], file_name: &str) -> (r: Result<Vec<u8>, AssetError>)
    requires
        archive@.len() <= 0x1000_0000_0000_0000,
    ensures
        match r {
            Result::Ok(v) => spec_tar_lookup(archive@, spec_model_path(file_name), 0) == Ok::<
                Seq<u8>,
                ArchiveError,
            >(v@),
            Result::Err(AssetError::NotFound) => spec_tar_lookup(
                archive@,
                spec_model_path(file_name),
                0,
            ) == Err::<Seq<u8>, ArchiveError>(ArchiveError::NotFound),
            Result::Err(AssetError::MalformedArchive) => spec_tar_lookup(
                archive@,
                spec_model_path(file_name),
                0,
            ) == Err::<Seq<u8>, ArchiveError>(ArchiveError::Malformed),
            Result::Err(AssetError::Decode) => false,
        },
{
    let path: Vec<u8> = concat_bytes("res/".as_bytes(), file_name.as_bytes());
    match tar_find_entry(archive, path.as_slice()) {
        Result::Err(ArchiveError::NotFound) => Result::Err(AssetError::NotFound),
        Result::Err(ArchiveError::Malformed) => Result::Err(AssetError::MalformedArchive),
        Result::Ok(v) => Result::Ok(v),
    }
}

} // verus!
