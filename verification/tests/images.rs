use std::cell::Cell;

use sixtyfps_rendering_backend_gl::cached_image::{
    CachedImage, ImageData, ImageSize, LoadError,
};
use sixtyfps_rendering_backend_gl::image_cache::{ImageCache, ImageCacheKey};
use sixtyfps_rendering_backend_gl::resource::{
    decode_raster, decoder_for_data, decoder_for_path, ImageDecoder, ItemGraphicsCacheEntry,
    Resource,
};

fn id(n: usize) -> femtovg::ImageId {
    femtovg::ImageId(generational_arena::Index::from_raw_parts(n, 0))
}

fn png(width: u32, height: u32) -> Vec<u8> {
    let mut bytes = Vec::new();
    image::DynamicImage::new_rgba8(width, height)
        .write_to(&mut bytes, image::ImageOutputFormat::Png)
        .unwrap();
    bytes
}

fn cpu_image(width: u32, height: u32) -> CachedImage {
    CachedImage::new_on_cpu(image::DynamicImage::new_rgba8(width, height))
}

fn no_info(_: femtovg::ImageId) -> Option<(usize, usize)> {
    panic!("the canvas was asked")
}

fn no_path(_: &String, _: ImageDecoder) -> Result<CachedImage, LoadError> {
    panic!("a file was read")
}

fn no_svg(_: &[u8]) -> Result<CachedImage, LoadError> {
    panic!("the SVG decoder was called")
}

#[test]
fn upload_happens_once_and_gives_the_same_id() {
    let uploads = Cell::new(0);
    let mut image = cpu_image(3, 2);
    let first = image.ensure_uploaded_to_gpu(|_| {
        uploads.set(uploads.get() + 1);
        Some(id(7))
    });
    let second = image.ensure_uploaded_to_gpu(|_| {
        uploads.set(uploads.get() + 1);
        Some(id(8))
    });
    assert_eq!(first, Ok(id(7)));
    assert_eq!(second, Ok(id(7)));
    assert_eq!(uploads.get(), 1);
    assert!(matches!(image.data, ImageData::GpuSide { upload_pending: None, .. }));
}

#[test]
fn failed_upload_leaves_the_image_in_memory() {
    let mut image = cpu_image(3, 2);
    assert_eq!(image.ensure_uploaded_to_gpu(|_| None), Err(LoadError::UploadFailed));
    assert!(matches!(image.data, ImageData::CpuSide { .. }));
    assert_eq!(image.ensure_uploaded_to_gpu(|_| Some(id(1))), Ok(id(1)));
}

#[test]
fn supported_pixels_are_uploaded_as_they_are() {
    let mut image = CachedImage::new_on_cpu(image::DynamicImage::new_rgb8(2, 2));
    let result = image.ensure_uploaded_to_gpu(|pixels| {
        assert!(pixels.as_rgb8().is_some());
        Some(id(1))
    });
    assert_eq!(result, Ok(id(1)));
}

#[test]
fn unsupported_pixels_are_converted_to_rgba8() {
    let mut image = CachedImage::new_on_cpu(image::DynamicImage::new_luma16(2, 5));
    let result = image.ensure_uploaded_to_gpu(|pixels| {
        assert!(pixels.as_rgba8().is_some());
        assert_eq!(image::GenericImageView::dimensions(pixels), (2, 5));
        Some(id(1))
    });
    assert_eq!(result, Ok(id(1)));
}

#[test]
fn size_of_an_image_in_memory_is_the_decoded_size() {
    let image = cpu_image(5, 7);
    assert_eq!(image.size(no_info), ImageSize { width: 5, height: 7 });
}

#[test]
fn size_of_a_pending_image_is_one_by_one() {
    let mut image = CachedImage::new_on_gpu(id(3), Some(true));
    assert_eq!(image.size(no_info), ImageSize { width: 1, height: 1 });
    image.notify_loaded();
    assert_eq!(image.data_pending(), Some(false));
    assert_eq!(image.size(|_| Some((40, 30))), ImageSize { width: 40, height: 30 });
}

#[test]
fn size_of_an_uploaded_image_is_what_the_canvas_reports() {
    let image = CachedImage::new_on_gpu(id(3), None);
    let asked = Cell::new(None);
    let size = image.size(|image_id| {
        asked.set(Some(image_id));
        Some((640, 480))
    });
    assert_eq!(size, ImageSize { width: 640, height: 480 });
    assert_eq!(asked.get(), Some(id(3)));
    assert_eq!(image.size(|_| None), ImageSize { width: 0, height: 0 });
}

#[test]
fn notify_loaded_leaves_other_images_alone() {
    let mut image = CachedImage::new_on_gpu(id(3), None);
    image.notify_loaded();
    assert_eq!(image.data_pending(), None);
    let mut image = cpu_image(1, 1);
    image.notify_loaded();
    assert!(matches!(image.data, ImageData::CpuSide { .. }));
}

#[test]
fn release_gives_back_the_gpu_id() {
    assert_eq!(CachedImage::new_on_gpu(id(9), None).release(), Some(id(9)));
    assert_eq!(cpu_image(1, 1).release(), None);
}

#[test]
fn same_path_gives_the_same_image() {
    let mut cache = ImageCache::new();
    let made = Cell::new(0);
    let create = || {
        made.set(made.get() + 1);
        Ok(cpu_image(1, 1))
    };
    let first = cache
        .lookup_image_in_cache_or_create(ImageCacheKey::Path("/a.png".to_string()), create)
        .unwrap();
    let second = cache
        .lookup_image_in_cache_or_create(ImageCacheKey::Path("/a.png".to_string()), create)
        .unwrap();
    let other = cache
        .lookup_image_in_cache_or_create(ImageCacheKey::Path("/b.png".to_string()), create)
        .unwrap();
    assert_eq!(first, second);
    assert_ne!(first, other);
    assert_eq!(made.get(), 2);
    assert_eq!(cache.holders(first), 2);
    assert_eq!(cache.holders(other), 1);
}

#[test]
fn embedded_data_is_cached_by_place_not_by_content() {
    let mut cache = ImageCache::new();
    let create = || Ok(cpu_image(1, 1));
    let a = cache
        .lookup_image_in_cache_or_create(
            ImageCacheKey::EmbeddedData { address: 0x1000, len: 16 },
            create,
        )
        .unwrap();
    let b = cache
        .lookup_image_in_cache_or_create(
            ImageCacheKey::EmbeddedData { address: 0x2000, len: 16 },
            create,
        )
        .unwrap();
    let c = cache
        .lookup_image_in_cache_or_create(
            ImageCacheKey::EmbeddedData { address: 0x1000, len: 8 },
            create,
        )
        .unwrap();
    let again = cache
        .lookup_image_in_cache_or_create(
            ImageCacheKey::EmbeddedData { address: 0x1000, len: 16 },
            create,
        )
        .unwrap();
    assert_ne!(a, b);
    assert_ne!(a, c);
    assert_eq!(a, again);
}

#[test]
fn released_image_is_made_anew_after_the_sweep() {
    let mut cache = ImageCache::new();
    let key = || ImageCacheKey::Path("/a.png".to_string());
    let first = cache.lookup_image_in_cache_or_create(key(), || Ok(cpu_image(1, 1))).unwrap();
    assert_eq!(cache.release(first), None);
    assert_eq!(cache.holders(first), 0);
    assert!(cache.image(first).is_none());
    cache.collect_garbage();
    assert_eq!(cache.find(&key()), None);
    let second = cache.lookup_image_in_cache_or_create(key(), || Ok(cpu_image(2, 2))).unwrap();
    assert_ne!(first, second);
    assert_eq!(cache.image(second).unwrap().size(no_info), ImageSize { width: 2, height: 2 });
}

#[test]
fn released_image_is_made_anew_even_before_the_sweep() {
    let mut cache = ImageCache::new();
    let key = || ImageCacheKey::Path("/a.png".to_string());
    let first = cache.lookup_image_in_cache_or_create(key(), || Ok(cpu_image(1, 1))).unwrap();
    cache.release(first);
    let second = cache.lookup_image_in_cache_or_create(key(), || Ok(cpu_image(2, 2))).unwrap();
    assert_ne!(first, second);
    assert_eq!(cache.find(&key()), Some(second));
}

#[test]
fn sweep_keeps_held_images_and_forgets_the_others() {
    let mut cache = ImageCache::new();
    let a = cache
        .lookup_image_in_cache_or_create(ImageCacheKey::Path("a".to_string()), || {
            Ok(cpu_image(1, 1))
        })
        .unwrap();
    let b = cache
        .lookup_image_in_cache_or_create(ImageCacheKey::Path("b".to_string()), || {
            Ok(cpu_image(1, 1))
        })
        .unwrap();
    let c = cache
        .lookup_image_in_cache_or_create(ImageCacheKey::Path("c".to_string()), || {
            Ok(cpu_image(1, 1))
        })
        .unwrap();
    cache.release(a);
    cache.release(c);
    cache.collect_garbage();
    assert_eq!(cache.find(&ImageCacheKey::Path("a".to_string())), None);
    assert_eq!(cache.find(&ImageCacheKey::Path("b".to_string())), Some(b));
    assert_eq!(cache.find(&ImageCacheKey::Path("c".to_string())), None);
    assert_eq!(cache.key_count(), 1);
    cache.collect_garbage();
    assert_eq!(cache.key_count(), 1);
}

#[test]
fn last_release_of_an_uploaded_image_gives_the_id_to_delete() {
    let mut cache = ImageCache::new();
    let key = || ImageCacheKey::Path("/a.png".to_string());
    let h = cache.lookup_image_in_cache_or_create(key(), || Ok(cpu_image(1, 1))).unwrap();
    assert!(cache.acquire(h));
    assert_eq!(cache.image_mut(h).unwrap().ensure_uploaded_to_gpu(|_| Some(id(4))), Ok(id(4)));
    assert_eq!(cache.release(h), None);
    assert_eq!(cache.holders(h), 1);
    assert_eq!(cache.release(h), Some(id(4)));
    assert_eq!(cache.release(h), None);
    assert!(!cache.acquire(h));
    assert!(cache.image_mut(h).is_none());
    assert_eq!(cache.release(12345), None);
}

#[test]
fn failed_creation_leaves_the_cache_as_it_was() {
    let mut cache = ImageCache::new();
    let key = || ImageCacheKey::Path("/a.png".to_string());
    let result = cache.lookup_image_in_cache_or_create(key(), || Err(LoadError::Decode));
    assert_eq!(result, Err(LoadError::Decode));
    assert_eq!(cache.find(&key()), None);
    assert_eq!(cache.key_count(), 0);
    assert_eq!(cache.image_count(), 0);
}

#[test]
fn holders_that_cannot_be_counted_are_refused() {
    let mut cache = ImageCache::new();
    let key = || ImageCacheKey::Path("/a.png".to_string());
    let h = cache.lookup_image_in_cache_or_create(key(), || Ok(cpu_image(1, 1))).unwrap();
    assert!(!cache.acquire_many(h, usize::MAX));
    assert_eq!(cache.holders(h), 1);
    assert!(cache.acquire_many(h, usize::MAX - 1));
    assert!(!cache.acquire(h));
    assert!(!cache.acquire_many(12345, 1));
    let result = cache.lookup_image_in_cache_or_create(key(), || panic!("made"));
    assert_eq!(result, Err(LoadError::TooManyHolders));
    assert_eq!(cache.holders(h), usize::MAX);
}

#[test]
fn adopted_image_has_no_key() {
    let mut cache = ImageCache::new();
    let h = cache.adopt(CachedImage::new_on_gpu(id(2), None));
    assert_eq!(cache.holders(h), 1);
    assert_eq!(cache.key_count(), 0);
    cache.collect_garbage();
    assert!(cache.image(h).is_some());
    assert_eq!(cache.release(h), Some(id(2)));
}

#[test]
fn svg_data_goes_to_the_svg_decoder() {
    assert_eq!(decoder_for_data(b"<svg xmlns=\"http://www.w3.org/2000/svg\"/>"), ImageDecoder::Svg);
    assert_eq!(decoder_for_data(b"<svg"), ImageDecoder::Svg);
    assert_eq!(decoder_for_data(b"<sv"), ImageDecoder::Raster);
    assert_eq!(decoder_for_data(b" <svg"), ImageDecoder::Raster);
    assert_eq!(decoder_for_data(b""), ImageDecoder::Raster);
    assert_eq!(decoder_for_data(&png(1, 1)), ImageDecoder::Raster);
}

#[test]
fn svg_files_go_to_the_svg_decoder() {
    assert_eq!(decoder_for_path("/icons/a.svg"), ImageDecoder::Svg);
    assert_eq!(decoder_for_path(".svg"), ImageDecoder::Svg);
    assert_eq!(decoder_for_path("/icons/a.png"), ImageDecoder::Raster);
    assert_eq!(decoder_for_path("/icons/a.svg.png"), ImageDecoder::Raster);
    assert_eq!(decoder_for_path("svg"), ImageDecoder::Raster);
    assert_eq!(decoder_for_path("/icons/a.SVG"), ImageDecoder::Raster);
}

#[test]
fn raster_bytes_are_decoded_with_their_size() {
    let image = decode_raster(&png(3, 2)).unwrap();
    assert!(matches!(image.data, ImageData::CpuSide { .. }));
    assert_eq!(image.size(no_info), ImageSize { width: 3, height: 2 });
}

#[test]
fn malformed_bytes_give_a_decode_error() {
    assert_eq!(decode_raster(b"not an image").err(), Some(LoadError::Decode));
    assert_eq!(decode_raster(b"").err(), Some(LoadError::Decode));
    let mut truncated = png(3, 2);
    truncated.truncate(20);
    assert_eq!(decode_raster(&truncated).err(), Some(LoadError::Decode));
}

#[test]
fn no_resource_gives_no_entry() {
    let mut cache = ImageCache::new();
    assert_eq!(cache.load_image_resource(&Resource::Absent, no_path, no_svg), Ok(None));
    assert_eq!(cache.image_count(), 0);
}

#[test]
fn embedded_pixels_are_not_implemented() {
    let mut cache = ImageCache::new();
    assert_eq!(
        cache.load_image_resource(
            &Resource::EmbeddedRgbaImage { width: 1, height: 1 },
            no_path,
            no_svg
        ),
        Err(LoadError::NotImplemented)
    );
    assert_eq!(cache.image_count(), 0);
}

#[test]
fn embedded_raster_data_is_decoded_once() {
    let mut cache = ImageCache::new();
    let data = png(4, 6);
    let resource = Resource::EmbeddedData { address: 0x4000, data: &data };
    let first = cache.load_image_resource(&resource, no_path, no_svg).unwrap().unwrap();
    let second = cache.load_image_resource(&resource, no_path, no_svg).unwrap().unwrap();
    assert_eq!(first, second);
    let handle = first.as_image();
    assert_eq!(first, ItemGraphicsCacheEntry::Image(handle));
    assert_eq!(cache.holders(handle), 2);
    assert_eq!(cache.image(handle).unwrap().size(no_info), ImageSize { width: 4, height: 6 });
    assert_eq!(cache.image_count(), 1);
}

#[test]
fn embedded_svg_data_is_handed_to_the_svg_decoder() {
    let mut cache = ImageCache::new();
    let data = b"<svg></svg>".to_vec();
    let seen = Cell::new(0);
    let resource = Resource::EmbeddedData { address: 0x4000, data: &data };
    let entry = cache
        .load_image_resource(&resource, no_path, |bytes: &[u8]| {
            seen.set(bytes.len());
            Ok(cpu_image(9, 9))
        })
        .unwrap()
        .unwrap();
    assert_eq!(seen.get(), data.len());
    assert_eq!(
        cache.image(entry.as_image()).unwrap().size(no_info),
        ImageSize { width: 9, height: 9 }
    );
}

#[test]
fn malformed_embedded_data_is_an_error_and_is_not_cached() {
    let mut cache = ImageCache::new();
    let data = b"garbage".to_vec();
    let resource = Resource::EmbeddedData { address: 0x4000, data: &data };
    assert_eq!(cache.load_image_resource(&resource, no_path, no_svg), Err(LoadError::Decode));
    assert_eq!(cache.image_count(), 0);
    assert_eq!(cache.key_count(), 0);
}

#[test]
fn files_are_read_with_the_decoder_for_their_name() {
    let mut cache = ImageCache::new();
    let seen = Cell::new(None);
    let resource = Resource::AbsoluteFilePath("/tmp/icon.svg".to_string());
    let entry = cache
        .load_image_resource(
            &resource,
            |path: &String, decoder| {
                assert_eq!(path, "/tmp/icon.svg");
                seen.set(Some(decoder));
                Ok(cpu_image(8, 8))
            },
            no_svg,
        )
        .unwrap()
        .unwrap();
    assert_eq!(seen.get(), Some(ImageDecoder::Svg));
    let again = cache.load_image_resource(&resource, no_path, no_svg).unwrap().unwrap();
    assert_eq!(entry, again);
    let other = Resource::AbsoluteFilePath("/tmp/icon.png".to_string());
    cache
        .load_image_resource(
            &other,
            |_: &String, decoder| {
                seen.set(Some(decoder));
                Err(LoadError::Decode)
            },
            no_svg,
        )
        .unwrap_err();
    assert_eq!(seen.get(), Some(ImageDecoder::Raster));
}

#[test]
fn image_without_pixels_is_never_handed_to_the_canvas() {
    for (width, height) in [(0, 5), (5, 0), (0, 0)] {
        let mut image = cpu_image(width, height);
        let result = image.ensure_uploaded_to_gpu(|_| panic!("an empty image was uploaded"));
        assert_eq!(result, Err(LoadError::UploadFailed));
        assert!(matches!(image.data, ImageData::CpuSide { .. }));
        assert_eq!(
            image.size(no_info),
            ImageSize { width: width as usize, height: height as usize }
        );
    }
}

#[test]
fn decoded_image_knows_its_pixels_and_size() {
    let image = cpu_image(6, 4);
    match &image.data {
        ImageData::CpuSide { decoded_image } => {
            assert_eq!((decoded_image.width(), decoded_image.height()), (6, 4));
            assert_eq!(image::GenericImageView::dimensions(decoded_image.pixels_ref()), (6, 4));
        }
        ImageData::GpuSide { .. } => panic!("the image is not in memory"),
    }
}
