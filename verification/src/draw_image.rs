//! Drawing an item's image: loading it through the item's slot and the
//! image cache, uploading it on first use, and fitting it into its target.

use vstd::prelude::*;
use crate::cached_image::{is_size, is_upload, CachedImage, ImageSize, LoadError};
use crate::geometry::{
    image_placement, placement_of, ImageFit, ImagePlacement, Point, Position, Rect,
};
use crate::image_cache::{CacheModel, ImageCache, ImageHandle};
use crate::item_cache::ItemCacheSlot;
use crate::renderer::DrawCommand;
use crate::resource::{
    is_resource_load, makers_ok, ImageDecoder, ItemGraphicsCacheEntry, Resource,
};

verus! {

/// What loading an item's image gives.
#[derive(Debug)]
pub struct LoadedItemImage {
    /// The image to draw, if there is one.
    pub image: Option<ImageHandle>,
    /// The handle of an image that went away because the item let go of it
    /// as its last holder: the canvas must delete it.
    pub deleted: Option<femtovg::ImageId>,
    /// Why there is no image, where loading failed.
    pub error: Option<LoadError>,
}

/// The image that an entry stands for.
pub open spec fn entry_image(entry: Option<ItemGraphicsCacheEntry>) -> Option<ImageHandle> {
    match entry {
        Some(ItemGraphicsCacheEntry::Image(handle)) => Some(handle),
        None => None,
    }
}

/// The entry that a slot keeps for the result of a load: none where it failed.
pub open spec fn kept_entry(loaded: Result<Option<ItemGraphicsCacheEntry>, LoadError>) -> Option<
    ItemGraphicsCacheEntry,
> {
    match loaded {
        Ok(entry) => entry,
        Err(_) => None,
    }
}

/// The error of a load, if it failed.
pub open spec fn load_error(loaded: Result<Option<ItemGraphicsCacheEntry>, LoadError>) -> Option<
    LoadError,
> {
    match loaded {
        Ok(_) => None,
        Err(error) => Some(error),
    }
}

/// The image that a slot held.
pub open spec fn held_image(slot: ItemCacheSlot<ItemGraphicsCacheEntry>) -> Option<ImageHandle> {
    match slot.entry {
        Some(entry) => entry_image(entry),
        None => None,
    }
}

/// The cache after the item let go of the image that its slot held before.
pub open spec fn after_displacing(cache: CacheModel, displaced: Option<ImageHandle>) -> CacheModel {
    match displaced {
        Some(handle) => cache.released(handle as int),
        None => cache,
    }
}

/// The handle that the canvas must delete after the item let go.
pub open spec fn deleted_by_displacing(cache: CacheModel, displaced: Option<ImageHandle>) -> Option<
    femtovg::ImageId,
> {
    match displaced {
        Some(handle) => cache.deleted_on_release(handle as int),
        None => None,
    }
}

/// Whether loading an item's image led from `before` to `after`. While the
/// slot holds something that is still valid, that is the image, and nothing
/// happens. Else the source is read with `source`, its image is loaded
/// through the cache and kept in the slot; the item then lets go of the
/// image that the slot held before.
pub open spec fn is_item_image_load<
    G: FnOnce() -> Resource<'static>,
    P: FnOnce(&String, ImageDecoder) -> Result<CachedImage, LoadError>,
    S: FnOnce(&[u8]) -> Result<CachedImage, LoadError>,
>(
    before: CacheModel,
    after: CacheModel,
    slot_before: ItemCacheSlot<ItemGraphicsCacheEntry>,
    slot_after: ItemCacheSlot<ItemGraphicsCacheEntry>,
    still_valid: bool,
    loaded: LoadedItemImage,
    source: G,
    read_path: P,
    decode_svg: S,
) -> bool {
    if slot_before.must_produce(still_valid) {
        exists|
            resource: Resource<'static>,
            mid: CacheModel,
            result: Result<Option<ItemGraphicsCacheEntry>, LoadError>,
        |
            {
                &&& call_ensures(source, (), resource)
                &&& #[trigger] is_resource_load(before, mid, resource, result, read_path, decode_svg)
                &&& slot_after.entry == Some(kept_entry(result))
                &&& loaded.image == entry_image(kept_entry(result))
                &&& loaded.error == load_error(result)
                &&& after == after_displacing(mid, held_image(slot_before))
                &&& loaded.deleted == deleted_by_displacing(mid, held_image(slot_before))
            }
    } else {
        &&& after == before
        &&& slot_after == slot_before
        &&& loaded.image == held_image(slot_before)
        &&& loaded.deleted is None
        &&& loaded.error is None
    }
}

/// Loads the image of an item, unless its slot holds one that is still valid.
pub fn load_cached_item_image<
    G: FnOnce() -> Resource<'static>,
    P: FnOnce(&String, ImageDecoder) -> Result<CachedImage, LoadError>,
    S: FnOnce(&[u8]) -> Result<CachedImage, LoadError>,
>(
    images: &mut ImageCache,
    item_cache: &mut ItemCacheSlot<ItemGraphicsCacheEntry>,
    still_valid: bool,
    source_property_getter: G,
    read_path: P,
    decode_svg: S,
) -> (loaded: LoadedItemImage)
    requires
        old(images).well_formed(),
        call_requires(source_property_getter, ()),
        makers_ok(read_path, decode_svg),
    ensures
        final(images).well_formed(),
        is_item_image_load(
            old(images)@,
            final(images)@,
            *old(item_cache),
            *final(item_cache),
            still_valid,
            loaded,
            source_property_getter,
            read_path,
            decode_svg,
        ),
{
    let previous: Option<ImageHandle> = match item_cache.entry {
        Some(Some(ItemGraphicsCacheEntry::Image(handle))) => Some(handle),
        _ => None,
    };
    if item_cache.entry.is_some() && still_valid {
        return LoadedItemImage { image: previous, deleted: None, error: None };
    }
    let resource = source_property_getter();
    let result = images.load_image_resource(&resource, read_path, decode_svg);
    let ghost mid = images@;
    let (entry, error): (Option<ItemGraphicsCacheEntry>, Option<LoadError>) = match result {
        Ok(entry) => (entry, None),
        Err(error) => (None, Some(error)),
    };
    item_cache.entry = Some(entry);
    let deleted = match previous {
        Some(handle) => images.release(handle),
        None => None,
    };
    let image: Option<ImageHandle> = match entry {
        Some(ItemGraphicsCacheEntry::Image(handle)) => Some(handle),
        None => None,
    };
    let loaded = LoadedItemImage { image, deleted, error };
    assert(is_resource_load(old(images)@, mid, resource, result, read_path, decode_svg));
    loaded
}

/// A size of the canvas as a size in pixels of at most 32 bits.
pub open spec fn saturated(n: usize) -> u32 {
    if n > u32::MAX {
        u32::MAX
    } else {
        n as u32
    }
}

/// Cuts a size down to 32 bits.
pub fn saturate(n: usize) -> (r: u32)
    ensures
        r == saturated(n),
{
    if n > 0xffff_ffff {
        0xffff_ffff
    } else {
        n as u32
    }
}

/// The commands that draw an image at `pos`; none where nothing is drawn of it.
pub open spec fn image_commands(
    pos: Position,
    image: femtovg::ImageId,
    placement: Option<ImagePlacement>,
) -> Seq<DrawCommand> {
    match placement {
        Some(placed) => seq![
            DrawCommand::Save,
            DrawCommand::Translate { x: pos.x, y: pos.y },
            DrawCommand::Scale { horizontal: placed.scale_x, vertical: placed.scale_y },
            DrawCommand::FillImage { image, placement: placed },
            DrawCommand::Restore,
        ],
        None => Seq::empty(),
    }
}

/// An image as it is to be drawn: where, which part of it, into which
/// target, and how fitted.
#[derive(Clone, Copy, Debug, PartialEq, Eq, Structural)]
pub struct ImageTarget {
    pub pos: Position,
    pub source_clip_rect: Rect,
    pub target_width: i32,
    pub target_height: i32,
    pub image_fit: ImageFit,
}

impl ImageTarget {
    /// A target without width or height: nothing is drawn into it.
    pub open spec fn spec_is_empty(&self) -> bool {
        self.target_width <= 0 || self.target_height <= 0
    }

    #[verifier::when_used_as_spec(spec_is_empty)]
    pub fn is_empty(&self) -> (empty: bool)
        ensures
            empty == self.spec_is_empty(),
    {
        self.target_width <= 0 || self.target_height <= 0
    }

    /// The placement of an image of the given size in this target.
    pub open spec fn placement(&self, size: ImageSize) -> Option<ImagePlacement> {
        placement_of(
            self.target_width,
            self.target_height,
            self.source_clip_rect,
            saturated(size.width),
            saturated(size.height),
            self.image_fit,
        )
    }
}

/// What drawing an image gives.
#[derive(Debug)]
pub struct ImageDraw {
    /// The commands for the canvas; none where nothing is drawn.
    pub commands: Vec<DrawCommand>,
    /// A handle that the canvas must delete.
    pub deleted: Option<femtovg::ImageId>,
    /// Why nothing is drawn, where loading or uploading failed.
    pub error: Option<LoadError>,
}

/// Whether drawing the image under `image` led from `before` to `after` and
/// gave the commands and the error. No image, or one that is gone, draws
/// nothing. Else the image is uploaded unless it was; where that fails,
/// nothing is drawn and the error is reported. Where it succeeds, the image
/// is asked for its size and drawn as the target places it.
pub open spec fn is_image_draw<
    U: FnOnce(&image::DynamicImage) -> Option<femtovg::ImageId>,
    I: FnOnce(femtovg::ImageId) -> Option<(usize, usize)>,
>(
    before: CacheModel,
    after: CacheModel,
    image: Option<ImageHandle>,
    target: ImageTarget,
    commands: Seq<DrawCommand>,
    error: Option<LoadError>,
    upload: U,
    image_info: I,
) -> bool {
    if image is Some && before.is_live(image->0 as int) {
        let handle = image->0 as int;
        exists|uploaded: CachedImage, result: Result<femtovg::ImageId, LoadError>|
            {
                &&& #[trigger] is_upload(
                    before.images[handle]->0.image.data,
                    uploaded.data,
                    result,
                    upload,
                )
                &&& after == before.with_image(handle, uploaded)
                &&& match result {
                    Ok(id) => exists|size: ImageSize|
                        {
                            &&& #[trigger] is_size(uploaded.data, size, image_info)
                            &&& commands == image_commands(target.pos, id, target.placement(size))
                            &&& error is None
                        },
                    Err(failure) => commands.len() == 0 && error == Some(failure),
                }
            }
    } else {
        after == before && commands.len() == 0 && error is None
    }
}

/// Draws an image that was loaded.
pub fn draw_loaded_image<
    U: FnOnce(&image::DynamicImage) -> Option<femtovg::ImageId>,
    I: FnOnce(femtovg::ImageId) -> Option<(usize, usize)>,
>(
    images: &mut ImageCache,
    image: Option<ImageHandle>,
    target: &ImageTarget,
    upload: U,
    image_info: I,
) -> (drawn: (Vec<DrawCommand>, Option<LoadError>))
    requires
        old(images).well_formed(),
        forall|pixels: &image::DynamicImage| call_requires(upload, (pixels,)),
        forall|id: femtovg::ImageId| call_requires(image_info, (id,)),
    ensures
        final(images).well_formed(),
        is_image_draw(
            old(images)@,
            final(images)@,
            image,
            *target,
            drawn.0@,
            drawn.1,
            upload,
            image_info,
        ),
{
    let mut commands: Vec<DrawCommand> = Vec::new();
    let handle: ImageHandle = match image {
        Some(handle) => handle,
        None => {
            return (commands, None);
        },
    };
    let ghost uploaded: CachedImage;
    let (result, size): (Result<femtovg::ImageId, LoadError>, Option<ImageSize>) =
        match images.image_mut(handle) {
        Some(cached) => {
            let result = cached.ensure_uploaded_to_gpu(upload);
            proof {
                uploaded = *cached;
            }
            let size = match result {
                Ok(_) => Some(cached.size(image_info)),
                Err(_) => None,
            };
            (result, size)
        },
        None => {
            return (commands, None);
        },
    };
    proof {
        assert(images@ == old(images)@.with_image(handle as int, uploaded));
        assert(is_upload(
            old(images)@.images[handle as int]->0.image.data,
            uploaded.data,
            result,
            upload,
        ));
    }
    match result {
        Err(failure) => (commands, Some(failure)),
        Ok(id) => {
            let size: ImageSize = match size {
                Some(size) => size,
                None => ImageSize { width: 0, height: 0 },
            };
            let placement = image_placement(
                target.target_width,
                target.target_height,
                &target.source_clip_rect,
                saturate(size.width),
                saturate(size.height),
                target.image_fit,
            );
            match placement {
                Some(placed) => {
                    commands.push(DrawCommand::Save);
                    commands.push(DrawCommand::Translate { x: target.pos.x, y: target.pos.y });
                    commands.push(DrawCommand::Scale { horizontal: placed.scale_x, vertical: placed.scale_y });
                    commands.push(DrawCommand::FillImage { image: id, placement: placed });
                    commands.push(DrawCommand::Restore);
                },
                None => {},
            }
            assert(commands@ =~= image_commands(target.pos, id, target.placement(size)));
            assert(is_size(uploaded.data, size, image_info));
            (commands, None)
        },
    }
}

/// An image item as the item tree describes it.
#[derive(Clone, Copy, Debug, PartialEq, Eq, Structural)]
pub struct ImageItem {
    pub x: i32,
    pub y: i32,
    pub width: i32,
    pub height: i32,
    pub image_fit: ImageFit,
}

/// The target of an image item drawn at `pos`: all of the image is shown.
pub open spec fn image_target(pos: Point, item: ImageItem) -> ImageTarget {
    ImageTarget {
        pos: pos.moved(item.x as int, item.y as int),
        source_clip_rect: Rect { x: 0, y: 0, width: 0, height: 0 },
        target_width: item.width,
        target_height: item.height,
        image_fit: item.image_fit,
    }
}

/// The target of an image item of which only `source_clip` is shown.
pub open spec fn clipped_image_target(pos: Point, item: ImageItem, source_clip: Rect) -> ImageTarget {
    ImageTarget {
        pos: pos.moved(item.x as int, item.y as int),
        source_clip_rect: source_clip,
        target_width: item.width,
        target_height: item.height,
        image_fit: item.image_fit,
    }
}

/// Whether drawing an item's image led from `before` to `after`. Nothing
/// happens for an empty target: the image is not even loaded. Else the
/// image is loaded through the item's slot and drawn; an error of the
/// loading is reported before one of the upload.
pub open spec fn is_item_image_draw<
    G: FnOnce() -> Resource<'static>,
    P: FnOnce(&String, ImageDecoder) -> Result<CachedImage, LoadError>,
    S: FnOnce(&[u8]) -> Result<CachedImage, LoadError>,
    U: FnOnce(&image::DynamicImage) -> Option<femtovg::ImageId>,
    I: FnOnce(femtovg::ImageId) -> Option<(usize, usize)>,
>(
    before: CacheModel,
    after: CacheModel,
    slot_before: ItemCacheSlot<ItemGraphicsCacheEntry>,
    slot_after: ItemCacheSlot<ItemGraphicsCacheEntry>,
    still_valid: bool,
    target: ImageTarget,
    drawn: ImageDraw,
    source: G,
    read_path: P,
    decode_svg: S,
    upload: U,
    image_info: I,
) -> bool {
    if target.is_empty() {
        &&& after == before
        &&& slot_after == slot_before
        &&& drawn.commands@.len() == 0
        &&& drawn.deleted is None
        &&& drawn.error is None
    } else {
        exists|mid: CacheModel, loaded: LoadedItemImage, draw_error: Option<LoadError>|
            {
                &&& #[trigger] is_item_image_load(
                    before,
                    mid,
                    slot_before,
                    slot_after,
                    still_valid,
                    loaded,
                    source,
                    read_path,
                    decode_svg,
                )
                &&& #[trigger] is_image_draw(
                    mid,
                    after,
                    loaded.image,
                    target,
                    drawn.commands@,
                    draw_error,
                    upload,
                    image_info,
                )
                &&& drawn.deleted == loaded.deleted
                &&& drawn.error == (if loaded.error is Some {
                    loaded.error
                } else {
                    draw_error
                })
            }
    }
}

/// Draws the image of an item into its target.
pub fn draw_image_impl<
    G: FnOnce() -> Resource<'static>,
    P: FnOnce(&String, ImageDecoder) -> Result<CachedImage, LoadError>,
    S: FnOnce(&[u8]) -> Result<CachedImage, LoadError>,
    U: FnOnce(&image::DynamicImage) -> Option<femtovg::ImageId>,
    I: FnOnce(femtovg::ImageId) -> Option<(usize, usize)>,
>(
    images: &mut ImageCache,
    item_cache: &mut ItemCacheSlot<ItemGraphicsCacheEntry>,
    still_valid: bool,
    target: &ImageTarget,
    source_property: G,
    read_path: P,
    decode_svg: S,
    upload: U,
    image_info: I,
) -> (drawn: ImageDraw)
    requires
        old(images).well_formed(),
        call_requires(source_property, ()),
        makers_ok(read_path, decode_svg),
        forall|pixels: &image::DynamicImage| call_requires(upload, (pixels,)),
        forall|id: femtovg::ImageId| call_requires(image_info, (id,)),
    ensures
        final(images).well_formed(),
        is_item_image_draw(
            old(images)@,
            final(images)@,
            *old(item_cache),
            *final(item_cache),
            still_valid,
            *target,
            drawn,
            source_property,
            read_path,
            decode_svg,
            upload,
            image_info,
        ),
{
    if target.is_empty() {
        return ImageDraw { commands: Vec::new(), deleted: None, error: None };
    }
    let loaded = load_cached_item_image(
        images,
        item_cache,
        still_valid,
        source_property,
        read_path,
        decode_svg,
    );
    let ghost mid = images@;
    let (commands, draw_error) = draw_loaded_image(images, loaded.image, target, upload, image_info);
    let error = match loaded.error {
        Some(failure) => Some(failure),
        None => draw_error,
    };
    let drawn = ImageDraw { commands, deleted: loaded.deleted, error };
    proof {
        assert(is_item_image_load(
            old(images)@,
            mid,
            *old(item_cache),
            *item_cache,
            still_valid,
            loaded,
            source_property,
            read_path,
            decode_svg,
        ));
        assert(is_image_draw(
            mid,
            images@,
            loaded.image,
            *target,
            drawn.commands@,
            draw_error,
            upload,
            image_info,
        ));
    }
    drawn
}

/// Draws an image item at `pos`.
pub fn draw_image<
    G: FnOnce() -> Resource<'static>,
    P: FnOnce(&String, ImageDecoder) -> Result<CachedImage, LoadError>,
    S: FnOnce(&[u8]) -> Result<CachedImage, LoadError>,
    U: FnOnce(&image::DynamicImage) -> Option<femtovg::ImageId>,
    I: FnOnce(femtovg::ImageId) -> Option<(usize, usize)>,
>(
    images: &mut ImageCache,
    item_cache: &mut ItemCacheSlot<ItemGraphicsCacheEntry>,
    still_valid: bool,
    pos: Point,
    image: &ImageItem,
    source_property: G,
    read_path: P,
    decode_svg: S,
    upload: U,
    image_info: I,
) -> (drawn: ImageDraw)
    requires
        old(images).well_formed(),
        call_requires(source_property, ()),
        makers_ok(read_path, decode_svg),
        forall|pixels: &image::DynamicImage| call_requires(upload, (pixels,)),
        forall|id: femtovg::ImageId| call_requires(image_info, (id,)),
    ensures
        final(images).well_formed(),
        is_item_image_draw(
            old(images)@,
            final(images)@,
            *old(item_cache),
            *final(item_cache),
            still_valid,
            image_target(pos, *image),
            drawn,
            source_property,
            read_path,
            decode_svg,
            upload,
            image_info,
        ),
{
    let target = ImageTarget {
        pos: pos.offset(image.x, image.y),
        source_clip_rect: Rect { x: 0, y: 0, width: 0, height: 0 },
        target_width: image.width,
        target_height: image.height,
        image_fit: image.image_fit,
    };
    draw_image_impl(
        images,
        item_cache,
        still_valid,
        &target,
        source_property,
        read_path,
        decode_svg,
        upload,
        image_info,
    )
}

/// Draws an image item of which only a part is shown.
pub fn draw_clipped_image<
    G: FnOnce() -> Resource<'static>,
    P: FnOnce(&String, ImageDecoder) -> Result<CachedImage, LoadError>,
    S: FnOnce(&[u8]) -> Result<CachedImage, LoadError>,
    U: FnOnce(&image::DynamicImage) -> Option<femtovg::ImageId>,
    I: FnOnce(femtovg::ImageId) -> Option<(usize, usize)>,
>(
    images: &mut ImageCache,
    item_cache: &mut ItemCacheSlot<ItemGraphicsCacheEntry>,
    still_valid: bool,
    pos: Point,
    clipped_image: &ImageItem,
    source_clip: &Rect,
    source_property: G,
    read_path: P,
    decode_svg: S,
    upload: U,
    image_info: I,
) -> (drawn: ImageDraw)
    requires
        old(images).well_formed(),
        call_requires(source_property, ()),
        makers_ok(read_path, decode_svg),
        forall|pixels: &image::DynamicImage| call_requires(upload, (pixels,)),
        forall|id: femtovg::ImageId| call_requires(image_info, (id,)),
    ensures
        final(images).well_formed(),
        is_item_image_draw(
            old(images)@,
            final(images)@,
            *old(item_cache),
            *final(item_cache),
            still_valid,
            clipped_image_target(pos, *clipped_image, *source_clip),
            drawn,
            source_property,
            read_path,
            decode_svg,
            upload,
            image_info,
        ),
{
    let target = ImageTarget {
        pos: pos.offset(clipped_image.x, clipped_image.y),
        source_clip_rect: *source_clip,
        target_width: clipped_image.width,
        target_height: clipped_image.height,
        image_fit: clipped_image.image_fit,
    };
    draw_image_impl(
        images,
        item_cache,
        still_valid,
        &target,
        source_property,
        read_path,
        decode_svg,
        upload,
        image_info,
    )
}

/// Whether `size` is the size of the image that was loaded for an item: that
/// which the image reports, or nothing by nothing where there is no image.
pub open spec fn is_loaded_size<I: FnOnce(femtovg::ImageId) -> Option<(usize, usize)>>(
    cache: CacheModel,
    image: Option<ImageHandle>,
    size: ImageSize,
    image_info: I,
) -> bool {
    if image is Some && cache.is_live(image->0 as int) {
        is_size(cache.images[image->0 as int]->0.image.data, size, image_info)
    } else {
        size == (ImageSize { width: 0, height: 0 })
    }
}

/// The size, in image pixels, of the image of an item; it is loaded for
/// this if its slot holds none that is valid. An item without image, or
/// whose image cannot be loaded, has no size.
pub fn image_size<
    G: FnOnce() -> Resource<'static>,
    P: FnOnce(&String, ImageDecoder) -> Result<CachedImage, LoadError>,
    S: FnOnce(&[u8]) -> Result<CachedImage, LoadError>,
    I: FnOnce(femtovg::ImageId) -> Option<(usize, usize)>,
>(
    images: &mut ImageCache,
    item_graphics_cache: &mut ItemCacheSlot<ItemGraphicsCacheEntry>,
    still_valid: bool,
    source: G,
    read_path: P,
    decode_svg: S,
    image_info: I,
) -> (sized: (ImageSize, LoadedItemImage))
    requires
        old(images).well_formed(),
        call_requires(source, ()),
        makers_ok(read_path, decode_svg),
        forall|id: femtovg::ImageId| call_requires(image_info, (id,)),
    ensures
        final(images).well_formed(),
        is_item_image_load(
            old(images)@,
            final(images)@,
            *old(item_graphics_cache),
            *final(item_graphics_cache),
            still_valid,
            sized.1,
            source,
            read_path,
            decode_svg,
        ),
        is_loaded_size(final(images)@, sized.1.image, sized.0, image_info),
{
    let loaded = load_cached_item_image(
        images,
        item_graphics_cache,
        still_valid,
        source,
        read_path,
        decode_svg,
    );
    let nothing = ImageSize { width: 0, height: 0 };
    let size = match loaded.image {
        Some(handle) => match images.image(handle) {
            Some(image) => image.size(image_info),
            None => nothing,
        },
        None => nothing,
    };
    (size, loaded)
}

} // verus!
