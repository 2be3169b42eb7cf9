//! The image cache: which image belongs to which source, who still holds
//! it, and what is forgotten at the end of a frame.

use vstd::prelude::*;
use crate::cached_image::{CachedImage, ImageData, LoadError};
use crate::keyed::{CacheKey, KeyedList};

verus! {

/// What an image is cached under.
#[derive(Debug)]
pub enum ImageCacheKey {
    /// The path of the file that it was read from.
    Path(String),
    /// The place in memory of the bytes that it was decoded from: where
    /// they start and how many they are. What the bytes are plays no part.
    EmbeddedData { address: usize, len: usize },
}

/// A cache key as a value of mathematics.
pub ghost enum ImageKeyId {
    Path(Seq<char>),
    EmbeddedData { address: usize, len: usize },
}

impl CacheKey for ImageCacheKey {
    type Id = ImageKeyId;

    open spec fn id(&self) -> ImageKeyId {
        match self {
            ImageCacheKey::Path(path) => ImageKeyId::Path(path@),
            ImageCacheKey::EmbeddedData { address, len } => ImageKeyId::EmbeddedData {
                address: *address,
                len: *len,
            },
        }
    }

    fn same_key(&self, other: &Self) -> (same: bool) {
        match (self, other) {
            (ImageCacheKey::Path(a), ImageCacheKey::Path(b)) => *a == *b,
            (
                ImageCacheKey::EmbeddedData { address: a, len: m },
                ImageCacheKey::EmbeddedData { address: b, len: n },
            ) => *a == *b && *m == *n,
            _ => false,
        }
    }
}

/// An image together with the number of those who hold it.
pub struct SharedImage {
    pub image: CachedImage,
    pub holders: usize,
}

/// The names under which holders know their images. A handle is never
/// given out twice.
pub type ImageHandle = usize;

/// An image and the number of its holders, as a value of mathematics.
pub ghost struct HeldImage {
    pub image: CachedImage,
    pub holders: nat,
}

/// The cache as a value of mathematics: the index from key to handle, and
/// under each handle the image, or nothing once its last holder let go.
pub ghost struct CacheModel {
    pub index: Map<ImageKeyId, int>,
    pub images: Seq<Option<HeldImage>>,
}

impl CacheModel {
    /// Whether somebody still holds the image.
    pub open spec fn is_live(&self, handle: int) -> bool {
        0 <= handle < self.images.len() && self.images[handle] is Some
    }

    /// How many hold the image.
    pub open spec fn holders(&self, handle: int) -> nat {
        if self.is_live(handle) {
            self.images[handle]->0.holders
        } else {
            0
        }
    }

    /// Every image that is there has a holder, and the index points into the images.
    pub open spec fn well_formed(&self) -> bool {
        &&& forall|h: int| #[trigger] self.is_live(h) ==> self.holders(h) >= 1
        &&& forall|k: ImageKeyId|
            self.index.contains_key(k) ==> 0 <= (#[trigger] self.index[k]) < self.images.len()
    }

    /// The image that a lookup of `key` finds: the one that the index names,
    /// if somebody still holds it.
    pub open spec fn resolve(&self, key: ImageKeyId) -> Option<int> {
        if self.index.contains_key(key) && self.is_live(self.index[key]) {
            Some(self.index[key])
        } else {
            None
        }
    }

    /// The cache after `count` more holders took the live image `handle`.
    pub open spec fn acquired_by(&self, handle: int, count: nat) -> CacheModel {
        let held = self.images[handle]->0;
        CacheModel {
            index: self.index,
            images: self.images.update(
                handle,
                Some(HeldImage { image: held.image, holders: held.holders + count }),
            ),
        }
    }

    /// The cache after one more holder took the live image `handle`.
    pub open spec fn acquired(&self, handle: int) -> CacheModel {
        self.acquired_by(handle, 1)
    }

    /// The cache after a new image came in under `key`, with one holder.
    pub open spec fn inserted(&self, key: ImageKeyId, image: CachedImage) -> CacheModel {
        CacheModel {
            index: self.index.insert(key, self.images.len() as int),
            images: self.images.push(Some(HeldImage { image, holders: 1 })),
        }
    }

    /// The cache after a new image came in under no key, with one holder:
    /// no lookup finds it.
    pub open spec fn adopted(&self, image: CachedImage) -> CacheModel {
        CacheModel {
            index: self.index,
            images: self.images.push(Some(HeldImage { image, holders: 1 })),
        }
    }

    /// The handle that the next new image gets.
    pub open spec fn next_handle(&self) -> int {
        self.images.len() as int
    }

    /// The cache after the live image `handle` was changed in place.
    pub open spec fn with_image(&self, handle: int, image: CachedImage) -> CacheModel {
        CacheModel {
            index: self.index,
            images: self.images.update(
                handle,
                Some(HeldImage { image, holders: self.holders(handle) }),
            ),
        }
    }

    /// The cache after one holder of `handle` let go. The last one takes
    /// the image with it; the index is left as it is.
    pub open spec fn released(&self, handle: int) -> CacheModel {
        if !self.is_live(handle) {
            *self
        } else {
            let held = self.images[handle]->0;
            if held.holders > 1 {
                CacheModel {
                    index: self.index,
                    images: self.images.update(
                        handle,
                        Some(HeldImage { image: held.image, holders: (held.holders - 1) as nat }),
                    ),
                }
            } else {
                CacheModel { index: self.index, images: self.images.update(handle, None) }
            }
        }
    }

    /// The handle that the canvas must delete when one holder of `handle`
    /// lets go: that of an uploaded image whose last holder it was.
    pub open spec fn deleted_on_release(&self, handle: int) -> Option<femtovg::ImageId> {
        if self.holders(handle) == 1 {
            match self.images[handle]->0.image.data {
                ImageData::GpuSide { id, .. } => Some(id),
                ImageData::CpuSide { .. } => None,
            }
        } else {
            None
        }
    }

    /// The cache after the sweep at the end of a frame: the index forgets
    /// every key whose image nobody holds.
    pub open spec fn collected(&self) -> CacheModel {
        CacheModel {
            index: Map::new(
                |k: ImageKeyId| self.index.contains_key(k) && self.is_live(self.index[k]),
                |k: ImageKeyId| self.index[k],
            ),
            images: self.images,
        }
    }
}

/// Two lookups of one key give one image: after a lookup found or made an
/// image for a key, the next lookup of that key finds the same, as long as
/// nobody let go of it in between.
pub proof fn lemma_same_key_same_image(cache: CacheModel, key: ImageKeyId, image: CachedImage)
    requires
        cache.well_formed(),
    ensures
        cache.resolve(key) matches Some(h) ==> cache.acquired(h).resolve(key) == Some(h)
            && cache.acquired(h).holders(h) == cache.holders(h) + 1,
        cache.resolve(key) is None ==> cache.inserted(key, image).resolve(key) == Some(
            cache.next_handle(),
        ),
        cache.inserted(key, image).well_formed(),
{
    let after = cache.inserted(key, image);
    assert(after.is_live(cache.next_handle()));
    assert forall|h: int| #[trigger] after.is_live(h) implies after.holders(h) >= 1 by {
        if h < cache.images.len() {
            assert(cache.is_live(h));
            assert(cache.holders(h) >= 1);
        }
    }
}

/// An image that all have let go of is gone for good: once the last holder
/// of the image under a key has released it and the cache was swept, the
/// key is forgotten, so the next lookup makes a new image, under a handle
/// that differs from the old one.
pub proof fn lemma_released_image_is_made_anew(
    cache: CacheModel,
    key: ImageKeyId,
    handle: int,
    image: CachedImage,
)
    requires
        cache.well_formed(),
        cache.resolve(key) == Some(handle),
        cache.holders(handle) == 1,
    ensures
        ({
            let swept = cache.released(handle).collected();
            &&& !swept.index.contains_key(key)
            &&& swept.resolve(key) is None
            &&& swept.next_handle() != handle
            &&& swept.inserted(key, image).resolve(key) == Some(swept.next_handle())
            &&& swept.well_formed()
        }),
{
    let released = cache.released(handle);
    let swept = released.collected();
    assert(!released.is_live(handle));
    assert(swept.inserted(key, image).is_live(swept.next_handle()));
    assert forall|h: int| #[trigger] swept.is_live(h) implies swept.holders(h) >= 1 by {
        assert(cache.is_live(h));
        assert(cache.holders(h) >= 1);
    }
}

/// Letting go counts down: each release of a live image leaves it with one
/// holder less, and with none it is gone.
pub proof fn lemma_release_counts_down(cache: CacheModel, handle: int)
    requires
        cache.well_formed(),
        cache.is_live(handle),
    ensures
        cache.released(handle).holders(handle) == cache.holders(handle) - 1,
        cache.released(handle).is_live(handle) <==> cache.holders(handle) > 1,
        cache.released(handle).well_formed(),
        cache.released(handle).index == cache.index,
{
    let after = cache.released(handle);
    assert(cache.holders(handle) >= 1);
    assert forall|h: int| #[trigger] after.is_live(h) implies after.holders(h) >= 1 by {
        assert(cache.is_live(h));
        assert(cache.holders(h) >= 1);
    }
}

/// An image that is gone is forgotten by the sweep: a key whose image has
/// no holder left, however many it had, resolves to nothing, the sweep takes
/// the key out of the index, and the image that the next lookup makes gets
/// a handle of its own.
pub proof fn lemma_gone_image_is_forgotten(cache: CacheModel, key: ImageKeyId, image: CachedImage)
    requires
        cache.well_formed(),
        cache.index.contains_key(key),
        !cache.is_live(cache.index[key]),
    ensures
        cache.resolve(key) is None,
        !cache.collected().index.contains_key(key),
        cache.collected().next_handle() != cache.index[key],
        cache.collected().inserted(key, image).resolve(key) == Some(
            cache.collected().next_handle(),
        ),
{
    let swept = cache.collected();
    assert(swept.inserted(key, image).is_live(swept.next_handle()));
}

/// The sweep keeps what is held: a key whose image has a holder resolves
/// after the sweep to the image it resolved to before.
pub proof fn lemma_sweep_keeps_held_images(cache: CacheModel, key: ImageKeyId)
    ensures
        cache.collected().resolve(key) == cache.resolve(key),
        cache.collected().collected() == cache.collected(),
{
    let once = cache.collected();
    assert(once.collected().index =~= once.index);
}

/// The image cache. Images live under their handles; the index remembers
/// which handle belongs to which key, and holds no image by itself.
pub struct ImageCache {
    pub(crate) index: KeyedList<ImageCacheKey, ImageHandle>,
    pub(crate) images: Vec<Option<SharedImage>>,
}

/// An image with its holders as a value of mathematics.
pub open spec fn held(slot: Option<SharedImage>) -> Option<HeldImage> {
    match slot {
        Some(shared) => Some(HeldImage { image: shared.image, holders: shared.holders as nat }),
        None => None,
    }
}

/// The index as a value of mathematics.
pub open spec fn index_model(index: Map<ImageKeyId, ImageHandle>) -> Map<ImageKeyId, int> {
    Map::new(|k: ImageKeyId| index.contains_key(k), |k: ImageKeyId| index[k] as int)
}

/// The images as values of mathematics.
pub open spec fn images_model(images: Seq<Option<SharedImage>>) -> Seq<Option<HeldImage>> {
    Seq::new(images.len(), |i: int| held(images[i]))
}

impl View for ImageCache {
    type V = CacheModel;

    closed spec fn view(&self) -> CacheModel {
        CacheModel { index: index_model(self.index.map()), images: images_model(self.images@) }
    }
}

impl ImageCache {
    /// No key is indexed twice, every image has a holder, and the index
    /// points into the images.
    pub closed spec fn well_formed(&self) -> bool {
        self.index.well_formed() && self@.well_formed()
    }

    /// A cache that is in order is in order as a value of mathematics.
    pub proof fn lemma_well_formed(&self)
        requires
            self.well_formed(),
        ensures
            self@.well_formed(),
    {
    }

    /// A cache without images.
    pub fn new() -> (cache: Self)
        ensures
            cache.well_formed(),
            cache@.index == Map::<ImageKeyId, int>::empty(),
            cache@.images == Seq::<Option<HeldImage>>::empty(),
    {
        let cache = ImageCache { index: KeyedList::new(), images: Vec::new() };
        assert(cache@.index =~= Map::<ImageKeyId, int>::empty());
        assert(cache@.images =~= Seq::<Option<HeldImage>>::empty());
        cache
    }

    /// The image that is cached under the key and still held, if there is one.
    pub fn find(&self, key: &ImageCacheKey) -> (found: Option<ImageHandle>)
        requires
            self.well_formed(),
        ensures
            match found {
                Some(h) => self@.resolve(key.id()) == Some(h as int),
                None => self@.resolve(key.id()) is None,
            },
    {
        match self.index.get(key) {
            Some(handle) => {
                let h: usize = *handle;
                assert(self@.index.contains_key(key.id()) && self@.index[key.id()] == h);
                if h < self.images.len() && self.images[h].is_some() {
                    Some(h)
                } else {
                    None
                }
            },
            None => None,
        }
    }

    /// How many hold the image; zero for an image that is gone.
    pub fn holders(&self, handle: ImageHandle) -> (count: usize)
        ensures
            count == self@.holders(handle as int),
    {
        if handle < self.images.len() {
            match &self.images[handle] {
                Some(shared) => shared.holders,
                None => 0,
            }
        } else {
            0
        }
    }

    /// Lets one more holder take the image. Nothing happens, and `false`
    /// is returned, for an image that is gone, and for one whose holders
    /// cannot be counted any further.
    pub fn acquire(&mut self, handle: ImageHandle) -> (taken: bool)
        requires
            old(self).well_formed(),
        ensures
            final(self).well_formed(),
            taken <==> old(self)@.is_live(handle as int) && old(self)@.holders(handle as int)
                < usize::MAX,
            taken ==> final(self)@ == old(self)@.acquired(handle as int),
            !taken ==> final(self)@ == old(self)@,
    {
        self.acquire_many(handle, 1)
    }

    /// Lets `count` more holders take the image at once. Nothing happens,
    /// and `false` is returned, for an image that is gone, and where the
    /// holders could not all be counted.
    pub fn acquire_many(&mut self, handle: ImageHandle, count: usize) -> (taken: bool)
        requires
            old(self).well_formed(),
        ensures
            final(self).well_formed(),
            taken <==> old(self)@.is_live(handle as int) && old(self)@.holders(handle as int)
                + count <= usize::MAX,
            taken ==> final(self)@ == old(self)@.acquired_by(handle as int, count as nat),
            !taken ==> final(self)@ == old(self)@,
    {
        let countable: bool = handle < self.images.len() && match &self.images[handle] {
            Some(shared) => shared.holders <= usize::MAX - count,
            None => false,
        };
        if !countable {
            return false;
        }
        let ghost before = self.images@;
        match &mut self.images[handle] {
            Some(shared) => {
                shared.holders = shared.holders + count;
            },
            None => {},
        }
        proof {
            let after = self.images@;
            assert(after.len() == before.len());
            assert(self@.images =~= old(self)@.acquired_by(handle as int, count as nat).images);
            assert(self@.index =~= old(self)@.index);
            assert forall|h: int| #[trigger] self@.is_live(h) implies self@.holders(h) >= 1 by {
                assert(old(self)@.is_live(h));
                assert(old(self)@.holders(h) >= 1);
            }
        }
        true
    }

    /// The number of keys that the index remembers.
    pub fn key_count(&self) -> (count: usize)
        requires
            self.well_formed(),
        ensures
            self@.index.dom().finite(),
            count == self@.index.dom().len(),
    {
        assert(self@.index.dom() =~= self.index.map().dom());
        self.index.len()
    }

    /// The number of handles that were given out so far.
    pub fn image_count(&self) -> (count: usize)
        ensures
            count == self@.images.len(),
    {
        self.images.len()
    }

    /// Takes a new image into the cache under the key, with one holder, and
    /// returns its handle. An older image under that key stays with its
    /// holders, but is no longer found.
    pub fn insert(&mut self, key: ImageCacheKey, image: CachedImage) -> (handle: ImageHandle)
        requires
            old(self).well_formed(),
        ensures
            final(self).well_formed(),
            final(self)@ == old(self)@.inserted(key.id(), image),
            handle == old(self)@.next_handle(),
    {
        let handle: usize = self.images.len();
        let ghost id = key.id();
        self.images.push(Some(SharedImage { image, holders: 1 }));
        self.index.insert(key, handle);
        proof {
            assert(self@.images =~= old(self)@.inserted(id, image).images);
            assert(self@.index =~= old(self)@.inserted(id, image).index);
            assert forall|h: int| #[trigger] self@.is_live(h) implies self@.holders(h) >= 1 by {
                if h < handle {
                    assert(old(self)@.is_live(h));
                    assert(old(self)@.holders(h) >= 1);
                }
            }
            assert forall|k: ImageKeyId| self@.index.contains_key(k) implies 0 <= (
            #[trigger] self@.index[k]) < self@.images.len() by {
                if k != id {
                    assert(old(self)@.index.contains_key(k));
                    assert(old(self)@.index[k] == self@.index[k]);
                }
            }
        }
        handle
    }

    /// Lets one holder of the image go. When the last one goes, the image
    /// goes with it, and the handle that the canvas holds for it, if it was
    /// uploaded, is returned so that the canvas can delete it.
    pub fn release(&mut self, handle: ImageHandle) -> (deleted: Option<femtovg::ImageId>)
        requires
            old(self).well_formed(),
        ensures
            final(self).well_formed(),
            final(self)@ == old(self)@.released(handle as int),
            deleted == old(self)@.deleted_on_release(handle as int),
    {
        if handle >= self.images.len() {
            assert(self@.images =~= old(self)@.released(handle as int).images);
            return None;
        }
        let mut last: bool = false;
        let mut deleted: Option<femtovg::ImageId> = None;
        match &mut self.images[handle] {
            Some(shared) => {
                if shared.holders > 1 {
                    shared.holders = shared.holders - 1;
                } else {
                    last = true;
                    deleted = match &shared.image.data {
                        ImageData::GpuSide { id, .. } => Some(*id),
                        ImageData::CpuSide { .. } => None,
                    };
                }
            },
            None => {},
        }
        if last {
            self.images[handle] = None;
        }
        proof {
            assert(old(self)@.is_live(handle as int) ==> old(self)@.holders(handle as int) >= 1);
            assert(self@.images =~= old(self)@.released(handle as int).images);
            assert(self@.index =~= old(self)@.index);
            assert forall|h: int| #[trigger] self@.is_live(h) implies self@.holders(h) >= 1 by {
                if h != handle {
                    assert(old(self)@.is_live(h));
                    assert(old(self)@.holders(h) >= 1);
                }
            }
        }
        deleted
    }

    /// The sweep at the end of a frame: forgets every key whose image
    /// nobody holds any more. No image is touched.
    pub fn collect_garbage(&mut self)
        requires
            old(self).well_formed(),
        ensures
            final(self).well_formed(),
            final(self)@ == old(self)@.collected(),
    {
        let ghost before = self.index.map();
        let images = &self.images;
        let is_held = |handle: &ImageHandle| -> (held: bool)
            ensures
                held == (*handle < images@.len() && images@[*handle as int] is Some),
            { *handle < images.len() && images[*handle].is_some() };
        self.index.retain(&is_held);
        proof {
            assert(before == old(self).index.map());
            assert forall|k: ImageKeyId| #[trigger]
                self@.index.contains_key(k) == old(self)@.collected().index.contains_key(k) by {
                if before.contains_key(k) {
                    assert(old(self)@.index.contains_key(k));
                }
                if self.index.map().contains_key(k) {
                    assert(self@.is_live(self.index.map()[k] as int));
                }
            }
            assert(self@.index =~= old(self)@.collected().index);
            assert(self@.images =~= old(self)@.images);
            assert forall|h: int| #[trigger] self@.is_live(h) implies self@.holders(h) >= 1 by {
                assert(old(self)@.is_live(h));
                assert(old(self)@.holders(h) >= 1);
            }
        }
    }
}

impl ImageCache {
    /// The image under the handle, if somebody still holds it.
    pub fn image(&self, handle: ImageHandle) -> (image: Option<&CachedImage>)
        ensures
            match image {
                Some(found) => self@.is_live(handle as int) && self@.images[handle as int]->0.image
                    == *found,
                None => !self@.is_live(handle as int),
            },
    {
        if handle < self.images.len() {
            match &self.images[handle] {
                Some(shared) => Some(&shared.image),
                None => None,
            }
        } else {
            None
        }
    }

    /// The image under the handle, to be changed in place: uploaded, or
    /// told that its pixels have arrived. Its holders stay as they are.
    pub fn image_mut(&mut self, handle: ImageHandle) -> (image: Option<&mut CachedImage>)
        requires
            old(self).well_formed(),
        ensures
            final(self).well_formed(),
            match image {
                Some(found) => {
                    &&& old(self)@.is_live(handle as int)
                    &&& *found == old(self)@.images[handle as int]->0.image
                    &&& final(self)@ == old(self)@.with_image(handle as int, *final(found))
                },
                None => !old(self)@.is_live(handle as int) && final(self)@ == old(self)@,
            },
    {
        if handle >= self.images.len() || self.images[handle].is_none() {
            return None;
        }
        proof {
            assert forall|changed: CachedImage| #[trigger]
                old(self)@.with_image(handle as int, changed).well_formed() by {
                lemma_with_image(old(self)@, handle as int, changed);
            }
            assert forall|changed: Option<SharedImage>|
                changed is Some && old(self).images@[handle as int] is Some && changed->0.holders
                    == old(self).images@[handle as int]->0.holders implies #[trigger] images_model(
                old(self).images@.update(handle as int, changed),
            ) == old(self)@.with_image(handle as int, changed->0.image).images by {
                assert(images_model(old(self).images@.update(handle as int, changed)) =~= old(
                    self,
                )@.with_image(handle as int, changed->0.image).images);
            }
        }
        match &mut self.images[handle] {
            Some(shared) => Some(&mut shared.image),
            None => None,
        }
    }
}

/// Changing an image in place keeps the cache in order.
pub proof fn lemma_with_image(cache: CacheModel, handle: int, image: CachedImage)
    requires
        cache.well_formed(),
        cache.is_live(handle),
    ensures
        cache.with_image(handle, image).well_formed(),
        cache.with_image(handle, image).holders(handle) == cache.holders(handle),
        forall|k: ImageKeyId| cache.with_image(handle, image).resolve(k) == cache.resolve(k),
{
    let after = cache.with_image(handle, image);
    assert forall|h: int| #[trigger] after.is_live(h) implies after.holders(h) >= 1 by {
        assert(cache.is_live(h));
        assert(cache.holders(h) >= 1);
    }
    assert forall|k: ImageKeyId| after.resolve(k) == cache.resolve(k) by {
        if cache.index.contains_key(k) {
            assert(after.is_live(cache.index[k]) == cache.is_live(cache.index[k]));
        }
    }
}

/// Whether a lookup of `key` that ended in `result` led from `before` to
/// `after`, where `created` is what making a new image gave, if one was
/// made. An image that is found gets one more holder, and none is made.
/// Only where none is found is one made: it comes into the cache under the
/// key; where making it failed, the cache stays as it was.
pub open spec fn is_lookup(
    before: CacheModel,
    after: CacheModel,
    key: ImageKeyId,
    result: Result<ImageHandle, LoadError>,
    created: Option<Result<CachedImage, LoadError>>,
) -> bool {
    match before.resolve(key) {
        Some(found) => {
            &&& created is None
            &&& if before.holders(found) < usize::MAX {
                result == Ok::<ImageHandle, LoadError>(found as usize) && after == before.acquired(
                    found,
                )
            } else {
                result == Err::<ImageHandle, LoadError>(LoadError::TooManyHolders) && after
                    == before
            }
        },
        None => match created {
            Some(Ok(image)) => {
                &&& result == Ok::<ImageHandle, LoadError>(before.next_handle() as usize)
                &&& after == before.inserted(key, image)
            },
            Some(Err(error)) => result == Err::<ImageHandle, LoadError>(error) && after == before,
            None => false,
        },
    }
}

impl ImageCache {
    /// Looks the key up and returns the image that is cached under it, now
    /// with one more holder; where there is none, or none that anybody still
    /// holds, makes one with `image_create_fn` and caches it. The function is
    /// called only where an image must be made.
    pub fn lookup_image_in_cache_or_create<F: FnOnce() -> Result<CachedImage, LoadError>>(
        &mut self,
        cache_key: ImageCacheKey,
        image_create_fn: F,
    ) -> (result: Result<ImageHandle, LoadError>)
        requires
            old(self).well_formed(),
            call_requires(image_create_fn, ()),
        ensures
            final(self).well_formed(),
            exists|created: Option<Result<CachedImage, LoadError>>|
                {
                    &&& #[trigger] is_lookup(old(self)@, final(self)@, cache_key.id(), result, created)
                    &&& created matches Some(outcome) ==> call_ensures(image_create_fn, (), outcome)
                },
    {
        match self.lookup_held(&cache_key) {
            Some(result) => result,
            None => {
                let outcome = image_create_fn();
                self.cache_created(cache_key, outcome)
            },
        }
    }

    /// Looks the key up without making anything. Where an image is cached
    /// under the key and still held, it gets one more holder and the
    /// lookup's result is returned; else `None`, and nothing has changed.
    pub fn lookup_held(&mut self, key: &ImageCacheKey) -> (held: Option<
        Result<ImageHandle, LoadError>,
    >)
        requires
            old(self).well_formed(),
        ensures
            final(self).well_formed(),
            match held {
                Some(result) => old(self)@.resolve(key.id()) is Some && is_lookup(
                    old(self)@,
                    final(self)@,
                    key.id(),
                    result,
                    None,
                ),
                None => old(self)@.resolve(key.id()) is None && final(self)@ == old(self)@,
            },
    {
        match self.find(key) {
            Some(handle) => {
                let taken = self.acquire(handle);
                if taken {
                    Some(Ok(handle))
                } else {
                    Some(Err(LoadError::TooManyHolders))
                }
            },
            None => None,
        }
    }

    /// Ends a lookup that found nothing: caches the image that was made, or
    /// hands on the error with which making it failed.
    pub fn cache_created(
        &mut self,
        key: ImageCacheKey,
        created: Result<CachedImage, LoadError>,
    ) -> (result: Result<ImageHandle, LoadError>)
        requires
            old(self).well_formed(),
            old(self)@.resolve(key.id()) is None,
        ensures
            final(self).well_formed(),
            is_lookup(old(self)@, final(self)@, key.id(), result, Some(created)),
    {
        match created {
            Ok(image) => {
                let handle = self.insert(key, image);
                Ok(handle)
            },
            Err(error) => Err(error),
        }
    }
}

impl ImageCache {
    /// Takes in an image that belongs to one item alone: it gets a handle
    /// and one holder, and no key.
    pub fn adopt(&mut self, image: CachedImage) -> (handle: ImageHandle)
        requires
            old(self).well_formed(),
        ensures
            final(self).well_formed(),
            final(self)@ == old(self)@.adopted(image),
            handle == old(self)@.next_handle(),
    {
        let handle: usize = self.images.len();
        self.images.push(Some(SharedImage { image, holders: 1 }));
        proof {
            assert(self@.images =~= old(self)@.adopted(image).images);
            assert forall|h: int| #[trigger] self@.is_live(h) implies self@.holders(h) >= 1 by {
                if h < handle {
                    assert(old(self)@.is_live(h));
                    assert(old(self)@.holders(h) >= 1);
                }
            }
        }
        handle
    }
}

} // verus!
