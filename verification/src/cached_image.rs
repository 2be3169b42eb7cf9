//! A cached image: decoded pixels in memory until it is first drawn, a
//! handle into the canvas from then on.

use vstd::prelude::*;

verus! {

/// The canvas's handle for an uploaded image, `femtovg::ImageId`. Nothing
/// is known of a handle but which handle it is.
#[verifier::external_type_specification]
#[verifier::external_body]
pub struct ExImageId(femtovg::ImageId);

/// Decoded pixels, `image::DynamicImage`.
#[verifier::external_type_specification]
#[verifier::external_body]
pub struct ExDynamicImage(image::DynamicImage);

/// Why decoding failed, `image::ImageError`.
#[verifier::external_type_specification]
#[verifier::external_body]
pub struct ExImageError(image::ImageError);

/// The width and height, in pixels, of the image that `image::load_from_memory`
/// decodes from these bytes; `None` where it fails on them.
pub uninterp spec fn decoded_dimensions(bytes: Seq<u8>) -> Option<(u32, u32)>;

/// Why an image could not be had.
#[derive(Clone, Copy, Debug, PartialEq, Eq, Structural)]
pub enum LoadError {
    /// The bytes are not an image that can be decoded.
    Decode,
    /// The kind of source is not supported.
    NotImplemented,
    /// The canvas could not take the image.
    UploadFailed,
    /// The image has more holders than can be counted.
    TooManyHolders,
}

/// A decoded image with its size. The size is read from the pixels when
/// the value is made, and neither changes afterwards.
pub struct DecodedImage {
    pixels: image::DynamicImage,
    width: u32,
    height: u32,
}

impl DecodedImage {
    /// The decoded pixels.
    pub closed spec fn pixels(&self) -> image::DynamicImage {
        self.pixels
    }

    /// The width in pixels.
    pub closed spec fn spec_width(&self) -> u32 {
        self.width
    }

    /// The height in pixels.
    pub closed spec fn spec_height(&self) -> u32 {
        self.height
    }

    /// Whether the image has any pixels.
    pub open spec fn has_pixels(&self) -> bool {
        self.spec_width() > 0 && self.spec_height() > 0
    }

    #[verifier::when_used_as_spec(spec_width)]
    pub fn width(&self) -> (width: u32)
        ensures
            width == self.spec_width(),
    {
        self.width
    }

    #[verifier::when_used_as_spec(spec_height)]
    pub fn height(&self) -> (height: u32)
        ensures
            height == self.spec_height(),
    {
        self.height
    }

    /// The pixels, to be handed to the canvas.
    pub fn pixels_ref(&self) -> (pixels: &image::DynamicImage)
        ensures
            *pixels == self.pixels(),
    {
        &self.pixels
    }
}

/// Calls `image::load_from_memory`, which guesses the format from the first
/// bytes and decodes, and reads the size of the image with `dimensions`.
/// The contract claims that success and the size depend on the bytes alone.
#[verifier::external_body]
pub(crate) fn decode_from_memory(bytes: &[u8]) -> (r: Result<DecodedImage, image::ImageError>)
    ensures
        match r {
            Ok(img) => decoded_dimensions(bytes@) == Some((img.width(), img.height())),
            Err(_) => decoded_dimensions(bytes@) is None,
        },
{
    let pixels = image::load_from_memory(bytes)?;
    let (width, height) = image::GenericImageView::dimensions(&pixels);
    Ok(DecodedImage { pixels, width, height })
}

/// Reads the size of decoded pixels with `GenericImageView::dimensions`.
/// Nothing is claimed of the size.
#[verifier::external_body]
pub(crate) fn dimensions_of(pixels: image::DynamicImage) -> (img: DecodedImage)
    ensures
        img.pixels() == pixels,
{
    let (width, height) = image::GenericImageView::dimensions(&pixels);
    DecodedImage { pixels, width, height }
}

/// Asks `femtovg::ImageSource::try_from` whether the canvas takes the pixels
/// as they are. Nothing is claimed of the answer. The conversion does not
/// accept an image without columns, so the image must have some.
#[verifier::external_body]
pub(crate) fn canvas_takes(image: &DecodedImage) -> (direct: bool)
    requires
        image.width() > 0,
{
    femtovg::ImageSource::try_from(&image.pixels).is_ok()
}

/// Converts the pixels to eight-bit RGBA with `DynamicImage::to_rgba8`.
/// Nothing is claimed of the result.
#[verifier::external_body]
pub(crate) fn to_rgba8(pixels: &image::DynamicImage) -> (converted: image::DynamicImage) {
    image::DynamicImage::ImageRgba8(pixels.to_rgba8())
}

/// The size of an image in pixels.
#[derive(Clone, Copy, Debug, PartialEq, Eq, Structural)]
pub struct ImageSize {
    pub width: usize,
    pub height: usize,
}

/// Where an image lives.
pub enum ImageData {
    /// In the canvas, under `id`. Where `upload_pending` is present, it says
    /// whether the pixels are still on their way; where it is absent, they
    /// are there.
    GpuSide { id: femtovg::ImageId, upload_pending: Option<bool> },
    /// In memory, decoded, not yet handed to the canvas.
    CpuSide { decoded_image: DecodedImage },
}

/// One image of the cache. It starts in memory or in the canvas, moves from
/// memory to the canvas once, and never back.
pub struct CachedImage {
    pub data: ImageData,
}

/// The image after an upload was tried on it and ended in `outcome`. Only an
/// image in memory changes, and only where the upload gave a handle.
pub open spec fn after_upload(data: ImageData, outcome: Option<femtovg::ImageId>) -> ImageData {
    match (data, outcome) {
        (ImageData::CpuSide { decoded_image }, Some(id)) => if decoded_image.has_pixels() {
            ImageData::GpuSide { id, upload_pending: None }
        } else {
            data
        },
        _ => data,
    }
}

/// Whether anything is handed to the canvas when the image is made sure of:
/// only an image in memory that has pixels.
pub open spec fn is_uploadable(data: ImageData) -> bool {
    data matches ImageData::CpuSide { decoded_image } && decoded_image.has_pixels()
}

/// The handle that is returned when an upload, if one was needed, ended in `outcome`.
pub open spec fn upload_result(data: ImageData, outcome: Option<femtovg::ImageId>) -> Result<
    femtovg::ImageId,
    LoadError,
> {
    match data {
        ImageData::GpuSide { id, .. } => Ok(id),
        ImageData::CpuSide { decoded_image } => match outcome {
            Some(id) => if decoded_image.has_pixels() {
                Ok(id)
            } else {
                Err(LoadError::UploadFailed)
            },
            None => Err(LoadError::UploadFailed),
        },
    }
}

/// The size that an image reports when the canvas, so far as it is asked,
/// answers `info`.
pub open spec fn reported_size(data: ImageData, info: Option<(usize, usize)>) -> ImageSize {
    match data {
        ImageData::GpuSide { upload_pending: Some(true), .. } => ImageSize { width: 1, height: 1 },
        ImageData::GpuSide { .. } => match info {
            Some((width, height)) => ImageSize { width, height },
            None => ImageSize { width: 0, height: 0 },
        },
        ImageData::CpuSide { decoded_image } => ImageSize {
            width: decoded_image.width() as usize,
            height: decoded_image.height() as usize,
        },
    }
}

/// Whether making sure that an image is uploaded led from `before` to
/// `after` and gave `result`. An image in the canvas stays as it is and gives
/// its handle; `upload` plays no part. Nor does it for an image in memory
/// that has no pixels: there is nothing to upload, which counts as a failed
/// upload. For any other image in memory `upload` was called once, and what
/// it gave decides.
pub open spec fn is_upload<F: FnOnce(&image::DynamicImage) -> Option<femtovg::ImageId>>(
    before: ImageData,
    after: ImageData,
    result: Result<femtovg::ImageId, LoadError>,
    upload: F,
) -> bool {
    if is_uploadable(before) {
        exists|pixels: &image::DynamicImage, outcome: Option<femtovg::ImageId>|
            {
                &&& #[trigger] call_ensures(upload, (pixels,), outcome)
                &&& after == after_upload(before, outcome)
                &&& result == upload_result(before, outcome)
            }
    } else {
        after == before && result == upload_result(before, None)
    }
}

/// Whether `size` is the size that an image reports. The canvas is asked,
/// through `image_info`, only for an image that has arrived in it.
pub open spec fn is_size<F: FnOnce(femtovg::ImageId) -> Option<(usize, usize)>>(
    data: ImageData,
    size: ImageSize,
    image_info: F,
) -> bool {
    match data {
        ImageData::GpuSide { upload_pending: Some(true), .. } => size == reported_size(data, None),
        ImageData::GpuSide { id, .. } => exists|info: Option<(usize, usize)>| #[trigger]
            call_ensures(image_info, (id,), info) && size == reported_size(data, info),
        ImageData::CpuSide { .. } => size == reported_size(data, None),
    }
}

impl CachedImage {
    /// Whether the image still lives in memory, so that drawing it needs an upload.
    pub open spec fn needs_upload(&self) -> bool {
        self.data is CpuSide
    }

    /// An image in memory.
    pub fn new_on_cpu(decoded_image: image::DynamicImage) -> (image: Self)
        ensures
            image.data matches ImageData::CpuSide { decoded_image: d } && d.pixels() == decoded_image,
    {
        CachedImage { data: ImageData::CpuSide { decoded_image: dimensions_of(decoded_image) } }
    }

    /// An image that the canvas already holds.
    pub fn new_on_gpu(image_id: femtovg::ImageId, upload_pending_notifier: Option<bool>) -> (image:
        Self)
        ensures
            image.data == (ImageData::GpuSide {
                id: image_id,
                upload_pending: upload_pending_notifier,
            }),
    {
        CachedImage { data: ImageData::GpuSide { id: image_id, upload_pending: upload_pending_notifier } }
    }

    /// Makes sure that the canvas holds the image, and returns its handle.
    /// An image in the canvas is left as it is, whatever `upload` would do.
    /// For an image in memory `upload` is handed the pixels: as they are
    /// where the canvas takes them, else converted to eight-bit RGBA. Where
    /// it gives a handle, the image lives in the canvas from then on; where
    /// it gives none, the image stays in memory and the error is returned.
    /// An image without pixels is never handed over.
    pub fn ensure_uploaded_to_gpu<F: FnOnce(&image::DynamicImage) -> Option<femtovg::ImageId>>(
        &mut self,
        upload: F,
    ) -> (r: Result<femtovg::ImageId, LoadError>)
        requires
            forall|pixels: &image::DynamicImage| call_requires(upload, (pixels,)),
        ensures
            is_upload(old(self).data, final(self).data, r, upload),
            r is Ok ==> !final(self).needs_upload(),
            r matches Ok(id) ==> final(self).data is GpuSide && final(self).data->id == id,
    {
        match &self.data {
            ImageData::GpuSide { id, .. } => Ok(*id),
            ImageData::CpuSide { decoded_image } => {
                if decoded_image.width() == 0 || decoded_image.height() == 0 {
                    return Err(LoadError::UploadFailed);
                }
                let outcome = if canvas_takes(decoded_image) {
                    upload(decoded_image.pixels_ref())
                } else {
                    let converted = to_rgba8(decoded_image.pixels_ref());
                    upload(&converted)
                };
                match outcome {
                    Some(id) => {
                        self.data = ImageData::GpuSide { id, upload_pending: None };
                        Ok(id)
                    },
                    None => Err(LoadError::UploadFailed),
                }
            },
        }
    }

    /// The size of the image in pixels: one by one while its pixels are on
    /// their way; what `image_info` reports for an image in the canvas, and
    /// nothing by nothing where it reports none; the decoded size for an
    /// image in memory. Only for an image that has arrived in the canvas is
    /// `image_info` asked.
    pub fn size<F: FnOnce(femtovg::ImageId) -> Option<(usize, usize)>>(&self, image_info: F) -> (size:
        ImageSize)
        requires
            forall|id: femtovg::ImageId| call_requires(image_info, (id,)),
        ensures
            is_size(self.data, size, image_info),
    {
        match &self.data {
            ImageData::GpuSide { id, upload_pending } => {
                let pending: bool = match upload_pending {
                    Some(p) => *p,
                    None => false,
                };
                if pending {
                    ImageSize { width: 1, height: 1 }
                } else {
                    match image_info(*id) {
                        Some((width, height)) => ImageSize { width, height },
                        None => ImageSize { width: 0, height: 0 },
                    }
                }
            },
            ImageData::CpuSide { decoded_image } => ImageSize {
                width: decoded_image.width() as usize,
                height: decoded_image.height() as usize,
            },
        }
    }

    /// Records that the pixels of an image that was on its way have arrived.
    /// An image without such a mark, or in memory, is left as it is.
    pub fn notify_loaded(&mut self)
        ensures
            final(self).data == match old(self).data {
                ImageData::GpuSide { id, upload_pending: Some(_) } => ImageData::GpuSide {
                    id,
                    upload_pending: Some(false),
                },
                other => other,
            },
    {
        let arrived: Option<femtovg::ImageId> = match &self.data {
            ImageData::GpuSide { id, upload_pending: Some(_) } => Some(*id),
            _ => None,
        };
        if let Some(id) = arrived {
            self.data = ImageData::GpuSide { id, upload_pending: Some(false) };
        }
    }

    /// The mark of an image whose pixels may still be on their way: whether
    /// they are. None for an image without such a mark, or in memory.
    pub fn data_pending(&self) -> (pending: Option<bool>)
        ensures
            pending == (match self.data {
                ImageData::GpuSide { upload_pending, .. } => upload_pending,
                ImageData::CpuSide { .. } => None,
            }),
    {
        match &self.data {
            ImageData::GpuSide { upload_pending, .. } => *upload_pending,
            ImageData::CpuSide { .. } => None,
        }
    }

    /// Ends the image's life. Returns the handle that the canvas must be
    /// told to delete: that of an image in the canvas, none for one in memory.
    pub fn release(self) -> (id: Option<femtovg::ImageId>)
        ensures
            id == match self.data {
                ImageData::GpuSide { id, .. } => Some(id),
                ImageData::CpuSide { .. } => None,
            },
    {
        match self.data {
            ImageData::GpuSide { id, .. } => Some(id),
            ImageData::CpuSide { .. } => None,
        }
    }
}

/// Uploading is idempotent: once an image has a handle, making sure of it
/// again gives the same handle, changes nothing, and needs no upload,
/// however a second upload would have ended.
pub proof fn lemma_upload_is_idempotent(
    data: ImageData,
    first: Option<femtovg::ImageId>,
    second: Option<femtovg::ImageId>,
)
    requires
        upload_result(data, first) is Ok,
    ensures
        !(after_upload(data, first) is CpuSide),
        upload_result(after_upload(data, first), second) == upload_result(data, first),
        after_upload(after_upload(data, first), second) == after_upload(data, first),
{
}

} // verus!
