//! Drawing a pixmap that an item renders for itself and keeps in its slot.

use vstd::prelude::*;
use crate::cached_image::{CachedImage, ImageData, ImageSize};
use crate::draw_image::{
    after_displacing, deleted_by_displacing, held_image, saturate, saturated, ImageDraw,
};
use crate::geometry::{Area, Point};
use crate::image_cache::{CacheModel, ImageCache, ImageHandle};
use crate::item_cache::ItemCacheSlot;
use crate::renderer::DrawCommand;
use crate::resource::ItemGraphicsCacheEntry;

verus! {

/// Whether a buffer of `len` bytes holds the pixels of an image of the
/// given size, four bytes to the pixel. An image has at least one column.
pub open spec fn pixmap_fits(width: u32, height: u32, len: usize) -> bool {
    width > 0 && len / 4 >= width * height
}

/// Tests whether a buffer can be handed to the canvas as an image.
pub fn pixmap_is_usable(width: u32, height: u32, len: usize) -> (usable: bool)
    ensures
        usable == pixmap_fits(width, height, len),
{
    if width == 0 {
        return false;
    }
    let w: u64 = width as u64;
    let h: u64 = height as u64;
    assert(0 <= w * h <= 0xffff_ffff * 0xffff_ffff) by (nonlinear_arith)
        requires
            0 <= w <= 0xffff_ffff,
            0 <= h <= 0xffff_ffff,
    ;
    let pixels: u64 = w * h;
    (len / 4) as u64 >= pixels
}

/// The cache and the slot after the pixmap was made anew and `produced` is
/// the handle that the canvas gave for it, if it gave one.
pub open spec fn pixmap_produced(
    before: CacheModel,
    slot_before: ItemCacheSlot<ItemGraphicsCacheEntry>,
    produced: Option<femtovg::ImageId>,
) -> (CacheModel, ItemCacheSlot<ItemGraphicsCacheEntry>) {
    match produced {
        Some(id) => (
            after_displacing(
                before.adopted(
                    CachedImage { data: ImageData::GpuSide { id, upload_pending: None } },
                ),
                held_image(slot_before),
            ),
            ItemCacheSlot {
                entry: Some(Some(ItemGraphicsCacheEntry::Image(before.next_handle() as usize))),
            },
        ),
        None => (
            after_displacing(before, held_image(slot_before)),
            ItemCacheSlot { entry: Some(None) },
        ),
    }
}

/// The commands that draw a pixmap at `pos` at its own size.
pub open spec fn pixmap_commands(pos: Point, image: femtovg::ImageId, size: ImageSize) -> Seq<
    DrawCommand,
> {
    seq![
        DrawCommand::FillImageAt {
            image,
            area: Area {
                x: pos.x as i64,
                y: pos.y as i64,
                width: saturated(size.width) as i64,
                height: saturated(size.height) as i64,
            },
        },
    ]
}

/// Whether drawing an item's pixmap led from `before` to `after`. While the
/// slot holds a pixmap that is still valid, that one is drawn. Else `update`
/// renders the item and hands its pixels to the canvas; what it gives is
/// kept in the slot, and the item lets go of the pixmap it held before. Where
/// the slot then holds an image that the canvas knows the size of, the image
/// is drawn at `pos` at that size.
pub open spec fn is_pixmap_draw<
    R: FnOnce() -> Option<femtovg::ImageId>,
    I: FnOnce(femtovg::ImageId) -> Option<(usize, usize)>,
>(
    before: CacheModel,
    after: CacheModel,
    slot_before: ItemCacheSlot<ItemGraphicsCacheEntry>,
    slot_after: ItemCacheSlot<ItemGraphicsCacheEntry>,
    still_valid: bool,
    pos: Point,
    drawn: ImageDraw,
    update: R,
    image_info: I,
) -> bool {
    &&& drawn.error is None
    &&& if slot_before.must_produce(still_valid) {
        exists|produced: Option<femtovg::ImageId>|
            {
                &&& #[trigger] call_ensures(update, (), produced)
                &&& (after, slot_after) == pixmap_produced(before, slot_before, produced)
                &&& drawn.deleted == deleted_by_displacing(
                    match produced {
                        Some(id) => before.adopted(
                            CachedImage { data: ImageData::GpuSide { id, upload_pending: None } },
                        ),
                        None => before,
                    },
                    held_image(slot_before),
                )
            }
    } else {
        after == before && slot_after == slot_before && drawn.deleted is None
    }
    &&& match held_image(slot_after) {
        Some(handle) => if after.is_live(handle as int) {
            match after.images[handle as int]->0.image.data {
                ImageData::GpuSide { id, .. } => exists|info: Option<(usize, usize)>|
                    {
                        &&& #[trigger] call_ensures(image_info, (id,), info)
                        &&& drawn.commands@ == (match info {
                            Some((width, height)) => pixmap_commands(
                                pos,
                                id,
                                ImageSize { width, height },
                            ),
                            None => Seq::<DrawCommand>::empty(),
                        })
                    },
                ImageData::CpuSide { .. } => drawn.commands@.len() == 0,
            }
        } else {
            drawn.commands@.len() == 0
        },
        None => drawn.commands@.len() == 0,
    }
}

/// Draws the pixmap of an item at `pos`.
pub fn draw_cached_pixmap<
    R: FnOnce() -> Option<femtovg::ImageId>,
    I: FnOnce(femtovg::ImageId) -> Option<(usize, usize)>,
>(
    images: &mut ImageCache,
    item_cache: &mut ItemCacheSlot<ItemGraphicsCacheEntry>,
    still_valid: bool,
    pos: Point,
    update_fn: R,
    image_info: I,
) -> (drawn: ImageDraw)
    requires
        old(images).well_formed(),
        call_requires(update_fn, ()),
        forall|id: femtovg::ImageId| call_requires(image_info, (id,)),
    ensures
        final(images).well_formed(),
        is_pixmap_draw(
            old(images)@,
            final(images)@,
            *old(item_cache),
            *final(item_cache),
            still_valid,
            pos,
            drawn,
            update_fn,
            image_info,
        ),
{
    let previous: Option<ImageHandle> = match item_cache.entry {
        Some(Some(ItemGraphicsCacheEntry::Image(handle))) => Some(handle),
        _ => None,
    };
    let mut deleted: Option<femtovg::ImageId> = None;
    let current: Option<ImageHandle> = if item_cache.entry.is_some() && still_valid {
        previous
    } else {
        let produced = update_fn();
        let made: Option<ImageHandle> = match produced {
            Some(id) => Some(images.adopt(CachedImage::new_on_gpu(id, None))),
            None => None,
        };
        item_cache.entry = Some(
            match made {
                Some(handle) => Some(ItemGraphicsCacheEntry::Image(handle)),
                None => None,
            },
        );
        deleted = match previous {
            Some(handle) => images.release(handle),
            None => None,
        };
        made
    };
    let mut commands: Vec<DrawCommand> = Vec::new();
    let uploaded: Option<femtovg::ImageId> = match current {
        Some(handle) => match images.image(handle) {
            Some(image) => match &image.data {
                ImageData::GpuSide { id, .. } => Some(*id),
                ImageData::CpuSide { .. } => None,
            },
            None => None,
        },
        None => None,
    };
    match uploaded {
        Some(id) => {
            match image_info(id) {
                Some((width, height)) => {
                    commands.push(
                        DrawCommand::FillImageAt {
                            image: id,
                            area: Area {
                                x: pos.x as i64,
                                y: pos.y as i64,
                                width: saturate(width) as i64,
                                height: saturate(height) as i64,
                            },
                        },
                    );
                    assert(commands@ =~= pixmap_commands(pos, id, ImageSize { width, height }));
                },
                None => {},
            }
        },
        None => {},
    }
    ImageDraw { commands, deleted, error: None }
}

} // verus!
