use std::cell::RefCell;

use sixtyfps_rendering_backend_gl::font::{
    resolve_pixel_size, resolve_weight, FontCache, FontRequest, DEFAULT_FONT_SIZE,
    DEFAULT_FONT_WEIGHT,
};
use sixtyfps_rendering_backend_gl::units::UNITS_PER_PIXEL;

fn request(family: &str, weight: Option<i32>, pixel_size: Option<i64>) -> FontRequest {
    FontRequest { family: family.to_string(), weight, pixel_size }
}

#[test]
fn unset_size_and_weight_resolve_to_the_defaults() {
    assert_eq!(DEFAULT_FONT_SIZE, 12);
    assert_eq!(DEFAULT_FONT_WEIGHT, 400);
    let scale_of_two = 2 * UNITS_PER_PIXEL;
    assert_eq!(resolve_pixel_size(None, scale_of_two), 24 * UNITS_PER_PIXEL as i64);
    assert_eq!(resolve_weight(None), 400);
    let mut cache: FontCache<u32> = FontCache::new();
    let font = cache.font(
        request("Sans", None, None),
        scale_of_two,
        |_: &FontRequest| Vec::new(),
        &|_: &String, _: i32| None,
        &|family: &String, weight: i32| {
            assert_eq!(family, "Sans");
            assert_eq!(weight, 400);
            1
        },
    );
    assert_eq!(font.pixel_size, 24 * 64);
    assert_eq!(font.fonts, vec![1]);
}

#[test]
fn set_size_and_weight_are_kept() {
    assert_eq!(resolve_pixel_size(Some(1000), 128), 1000);
    assert_eq!(resolve_weight(Some(700)), 700);
    assert_eq!(resolve_pixel_size(None, 64), 12 * 64);
    assert_eq!(resolve_pixel_size(None, 96), 18 * 64);
    assert_eq!(resolve_pixel_size(None, i32::MAX), 12 * i32::MAX as i64);
    assert_eq!(resolve_pixel_size(None, i32::MIN), 12 * i32::MIN as i64);
}

#[test]
fn font_is_loaded_once_for_each_family_and_weight() {
    let loads = RefCell::new(Vec::new());
    let mut cache: FontCache<u32> = FontCache::new();
    let system = |family: &String, weight: i32| {
        loads.borrow_mut().push((family.clone(), weight));
        loads.borrow().len() as u32
    };
    let none = |_: &String, _: i32| None;
    let sans = "Sans".to_string();
    let a = cache.load_single_font(&sans, 400, &none, &system);
    let b = cache.load_single_font(&sans, 400, &none, &system);
    let c = cache.load_single_font(&sans, 700, &none, &system);
    let d = cache.load_single_font(&"Serif".to_string(), 400, &none, &system);
    assert_eq!((a, b, c, d), (1, 1, 2, 3));
    assert_eq!(
        *loads.borrow(),
        vec![("Sans".to_string(), 400), ("Sans".to_string(), 700), ("Serif".to_string(), 400)]
    );
}

#[test]
fn registered_fonts_come_before_system_fonts() {
    let mut cache: FontCache<u32> = FontCache::new();
    let app = |family: &String, _: i32| if family == "Brand" { Some(77) } else { None };
    let system = |family: &String, _: i32| -> u32 {
        assert_ne!(family, "Brand");
        5
    };
    assert_eq!(cache.load_single_font(&"Brand".to_string(), 400, &app, &system), 77);
    assert_eq!(cache.load_single_font(&"Other".to_string(), 400, &app, &system), 5);
}

#[test]
fn same_family_at_another_size_reuses_the_handle() {
    let loads = RefCell::new(0u32);
    let mut cache: FontCache<u32> = FontCache::new();
    let system = |_: &String, _: i32| {
        *loads.borrow_mut() += 1;
        *loads.borrow()
    };
    let none = |_: &String, _: i32| None;
    let small = cache.font(request("Sans", None, Some(640)), 64, |_| Vec::new(), &none, &system);
    let large = cache.font(request("Sans", Some(400), Some(6400)), 64, |_| Vec::new(), &none, &system);
    assert_eq!(small.fonts, large.fonts);
    assert_eq!(small.pixel_size, 640);
    assert_eq!(large.pixel_size, 6400);
    assert_eq!(*loads.borrow(), 1);
}

#[test]
fn fallbacks_follow_the_primary_font_in_order() {
    let mut cache: FontCache<u32> = FontCache::new();
    let system = |family: &String, weight: i32| match (family.as_str(), weight) {
        ("Sans", 700) => 1,
        ("Noto", 700) => 2,
        ("Emoji", 400) => 3,
        _ => panic!("unexpected font"),
    };
    let none = |_: &String, _: i32| None;
    let font = cache.font(
        request("Sans", Some(700), None),
        64,
        |resolved: &FontRequest| {
            assert_eq!(resolved.family, "Sans");
            assert_eq!(resolved.weight, Some(700));
            assert_eq!(resolved.pixel_size, Some(12 * 64));
            vec![request("Noto", Some(700), None), request("Emoji", None, None), request("Sans", Some(700), None)]
        },
        &none,
        &system,
    );
    assert_eq!(font.fonts, vec![1, 2, 3, 1]);
    assert_eq!(cache.len(), 3);
}
