//! Image sources: which decoder a source goes to, which key it is cached
//! under, and how an item's image is loaded through the cache.

use vstd::prelude::*;
use vstd::string::StringSliceAdditionalSpecFns;
use crate::cached_image::{decode_from_memory, decoded_dimensions, CachedImage, ImageData, LoadError};
use crate::image_cache::{
    is_lookup, CacheModel, ImageCache, ImageCacheKey, ImageHandle, ImageKeyId,
};
use crate::keyed::CacheKey;

verus! {

/// Where an image comes from.
pub enum Resource<'a> {
    /// Nowhere: there is no image.
    Absent,
    /// A file, named by its absolute path.
    AbsoluteFilePath(String),
    /// Bytes that the program carries with it, and the address at which they lie.
    EmbeddedData { address: usize, data: &'a [u8] },
    /// Decoded pixels that the program carries with it.
    EmbeddedRgbaImage { width: u32, height: u32 },
}

/// Which decoder turns a source into pixels.
#[derive(Clone, Copy, Debug, PartialEq, Eq, Structural)]
pub enum ImageDecoder {
    Raster,
    Svg,
}

/// What an item keeps in its cache slot.
#[derive(Clone, Copy, Debug, PartialEq, Eq, Structural)]
pub enum ItemGraphicsCacheEntry {
    Image(ImageHandle),
}

impl ItemGraphicsCacheEntry {
    /// The image that the entry stands for.
    pub fn as_image(&self) -> (handle: ImageHandle)
        ensures
            *self == ItemGraphicsCacheEntry::Image(handle),
    {
        match self {
            ItemGraphicsCacheEntry::Image(image) => *image,
        }
    }
}

/// The bytes with which an SVG document begins: `<svg`.
pub open spec fn svg_tag() -> Seq<u8> {
    seq![0x3Cu8, 0x73u8, 0x76u8, 0x67u8]
}

/// The bytes in which the name of an SVG file ends: `.svg`.
pub open spec fn svg_extension() -> Seq<u8> {
    seq![0x2Eu8, 0x73u8, 0x76u8, 0x67u8]
}

pub open spec fn starts_with(bytes: Seq<u8>, prefix: Seq<u8>) -> bool {
    bytes.len() >= prefix.len() && bytes.subrange(0, prefix.len() as int) == prefix
}

pub open spec fn ends_with(bytes: Seq<u8>, suffix: Seq<u8>) -> bool {
    bytes.len() >= suffix.len() && bytes.subrange(bytes.len() - suffix.len(), bytes.len() as int)
        == suffix
}

/// The decoder for embedded bytes: that for SVG where they begin with the
/// SVG tag, else that for raster images.
pub open spec fn data_decoder(data: Seq<u8>) -> ImageDecoder {
    if starts_with(data, svg_tag()) {
        ImageDecoder::Svg
    } else {
        ImageDecoder::Raster
    }
}

/// The decoder for a file: that for SVG where its name ends in the SVG
/// extension, else that for raster images.
pub open spec fn path_decoder(path: Seq<u8>) -> ImageDecoder {
    if ends_with(path, svg_extension()) {
        ImageDecoder::Svg
    } else {
        ImageDecoder::Raster
    }
}

/// Picks the decoder for embedded bytes.
pub fn decoder_for_data(data: &[u8]) -> (decoder: ImageDecoder)
    ensures
        decoder == data_decoder(data@),
{
    if data.len() >= 4 && data[0] == 0x3C && data[1] == 0x73 && data[2] == 0x76 && data[3] == 0x67 {
        assert(data@.subrange(0, 4) =~= svg_tag());
        ImageDecoder::Svg
    } else {
        proof {
            if data@.len() >= 4 {
                let head = data@.subrange(0, 4);
                assert(head[0] == data@[0] && head[1] == data@[1] && head[2] == data@[2] && head[3]
                    == data@[3]);
            }
        }
        ImageDecoder::Raster
    }
}

/// Picks the decoder for a file by its name.
pub fn decoder_for_path(path: &str) -> (decoder: ImageDecoder)
    ensures
        decoder == path_decoder(path.spec_bytes()),
{
    let bytes = path.as_bytes();
    let n: usize = bytes.len();
    if n >= 4 && bytes[n - 4] == 0x2E && bytes[n - 3] == 0x73 && bytes[n - 2] == 0x76 && bytes[n - 1]
        == 0x67 {
        assert(bytes@.subrange(n - 4, n as int) =~= svg_extension());
        ImageDecoder::Svg
    } else {
        proof {
            if n >= 4 {
                let tail = bytes@.subrange(n - 4, n as int);
                assert(tail[0] == bytes@[n - 4] && tail[1] == bytes@[n - 3] && tail[2] == bytes@[n
                    - 2] && tail[3] == bytes@[n - 1]);
            }
        }
        ImageDecoder::Raster
    }
}

/// Whether `outcome` is what decoding a raster image from `data` gives: an
/// image in memory of the size that the decoder finds, or a decode error
/// where the decoder fails.
pub open spec fn is_raster_decode(data: Seq<u8>, outcome: Result<CachedImage, LoadError>) -> bool {
    match outcome {
        Ok(image) => image.data is CpuSide && decoded_dimensions(data) == Some(
            (image.data->decoded_image.width(), image.data->decoded_image.height()),
        ),
        Err(error) => error == LoadError::Decode && decoded_dimensions(data) is None,
    }
}

/// Decodes a raster image from bytes in memory.
pub fn decode_raster(data: &[u8]) -> (outcome: Result<CachedImage, LoadError>)
    ensures
        is_raster_decode(data@, outcome),
{
    match decode_from_memory(data) {
        Ok(decoded_image) => Ok(CachedImage { data: ImageData::CpuSide { decoded_image } }),
        Err(_) => Err(LoadError::Decode),
    }
}

/// The key under which the image of a source is cached: a file's path, or
/// the place of embedded bytes. The other sources have none.
pub open spec fn resource_key(resource: Resource) -> Option<ImageKeyId> {
    match resource {
        Resource::AbsoluteFilePath(path) => Some(ImageKeyId::Path(path@)),
        Resource::EmbeddedData { address, data } => Some(
            ImageKeyId::EmbeddedData { address, len: data@.len() as usize },
        ),
        _ => None,
    }
}

/// Whether `outcome` is what making the image of a source gives. A file is
/// read by `read_path`, which is told the decoder that its name calls for.
/// Embedded bytes that begin like SVG go to `decode_svg`; all others are
/// decoded as a raster image.
pub open spec fn is_made_from<
    P: FnOnce(&String, ImageDecoder) -> Result<CachedImage, LoadError>,
    S: FnOnce(&[u8]) -> Result<CachedImage, LoadError>,
>(resource: Resource, outcome: Result<CachedImage, LoadError>, read_path: P, decode_svg: S) -> bool {
    match resource {
        Resource::AbsoluteFilePath(path) => call_ensures(
            read_path,
            (&path, path_decoder(vstd::utf8::encode_utf8(path@))),
            outcome,
        ),
        Resource::EmbeddedData { data, .. } => match data_decoder(data@) {
            ImageDecoder::Svg => call_ensures(decode_svg, (data,), outcome),
            ImageDecoder::Raster => is_raster_decode(data@, outcome),
        },
        _ => false,
    }
}

/// What the item keeps for the result of a lookup.
pub open spec fn as_entry(result: Result<ImageHandle, LoadError>) -> Result<
    Option<ItemGraphicsCacheEntry>,
    LoadError,
> {
    match result {
        Ok(handle) => Ok(Some(ItemGraphicsCacheEntry::Image(handle))),
        Err(error) => Err(error),
    }
}

/// Whether loading the image of `resource` led from `before` to `after` and
/// gave `loaded`. No source gives no entry and changes nothing. A file or
/// embedded bytes are looked up under their key, and made only where the
/// lookup finds nothing. Embedded decoded pixels are not supported.
pub open spec fn is_resource_load<
    P: FnOnce(&String, ImageDecoder) -> Result<CachedImage, LoadError>,
    S: FnOnce(&[u8]) -> Result<CachedImage, LoadError>,
>(
    before: CacheModel,
    after: CacheModel,
    resource: Resource,
    loaded: Result<Option<ItemGraphicsCacheEntry>, LoadError>,
    read_path: P,
    decode_svg: S,
) -> bool {
    match resource_key(resource) {
        Some(key) => exists|
            result: Result<ImageHandle, LoadError>,
            created: Option<Result<CachedImage, LoadError>>,
        |
            {
                &&& #[trigger] is_lookup(before, after, key, result, created)
                &&& created matches Some(outcome) ==> is_made_from(
                    resource,
                    outcome,
                    read_path,
                    decode_svg,
                )
                &&& loaded == as_entry(result)
            },
        None => after == before && loaded == (match resource {
            Resource::EmbeddedRgbaImage { .. } => Err::<Option<ItemGraphicsCacheEntry>, LoadError>(
                LoadError::NotImplemented,
            ),
            _ => Ok::<Option<ItemGraphicsCacheEntry>, LoadError>(None),
        }),
    }
}

/// Whether both ways of making an image can be asked for every source.
pub open spec fn makers_ok<
    P: FnOnce(&String, ImageDecoder) -> Result<CachedImage, LoadError>,
    S: FnOnce(&[u8]) -> Result<CachedImage, LoadError>,
>(read_path: P, decode_svg: S) -> bool {
    &&& forall|path: &String, decoder: ImageDecoder| call_requires(read_path, (path, decoder))
    &&& forall|data: &[u8]| call_requires(decode_svg, (data,))
}

impl ImageCache {
    /// Loads the image of a source through the cache. No source gives no
    /// entry. A file or embedded bytes give the image that is cached under
    /// their key, now with one more holder; where none is cached, or none
    /// that anybody still holds, the image is made and cached, and a failure
    /// to make it is returned and leaves the cache as it was. Embedded
    /// decoded pixels are not supported and give an error of their own.
    pub fn load_image_resource<
        P: FnOnce(&String, ImageDecoder) -> Result<CachedImage, LoadError>,
        S: FnOnce(&[u8]) -> Result<CachedImage, LoadError>,
    >(&mut self, resource: &Resource, read_path: P, decode_svg: S) -> (loaded: Result<
        Option<ItemGraphicsCacheEntry>,
        LoadError,
    >)
        requires
            old(self).well_formed(),
            makers_ok(read_path, decode_svg),
        ensures
            final(self).well_formed(),
            is_resource_load(old(self)@, final(self)@, *resource, loaded, read_path, decode_svg),
    {
        match resource {
            Resource::Absent => Ok(None),
            Resource::AbsoluteFilePath(path) => {
                let key = ImageCacheKey::Path(path.clone());
                let result = match self.lookup_held(&key) {
                    Some(result) => result,
                    None => {
                        let decoder = decoder_for_path(path.as_str());
                        let outcome = read_path(path, decoder);
                        let result = self.cache_created(key, outcome);
                        assert(is_lookup(old(self)@, self@, key.id(), result, Some(outcome)));
                        result
                    },
                };
                match result {
                    Ok(handle) => Ok(Some(ItemGraphicsCacheEntry::Image(handle))),
                    Err(error) => Err(error),
                }
            },
            Resource::EmbeddedData { address, data } => {
                let key = ImageCacheKey::EmbeddedData { address: *address, len: data.len() };
                let result = match self.lookup_held(&key) {
                    Some(result) => result,
                    None => {
                        let outcome = match decoder_for_data(data) {
                            ImageDecoder::Svg => decode_svg(data),
                            ImageDecoder::Raster => decode_raster(data),
                        };
                        let result = self.cache_created(key, outcome);
                        assert(is_lookup(old(self)@, self@, key.id(), result, Some(outcome)));
                        result
                    },
                };
                match result {
                    Ok(handle) => Ok(Some(ItemGraphicsCacheEntry::Image(handle))),
                    Err(error) => Err(error),
                }
            },
            Resource::EmbeddedRgbaImage { .. } => Err(LoadError::NotImplemented),
        }
    }
}

} // verus!
