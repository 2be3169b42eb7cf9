use sixtyfps_rendering_backend_gl::font::{never_breaks, FontCacheKey, GLFontMetrics, FontRequest};
use sixtyfps_rendering_backend_gl::keyed::{CacheKey, KeyedList};
use sixtyfps_rendering_backend_gl::layout::{LineMeasure, Size};
use sixtyfps_rendering_backend_gl::renderer::ContextState;
use sixtyfps_rendering_backend_gl::text::{Glyph, LineRange};

fn key(family: &str, weight: i32) -> FontCacheKey {
    FontCacheKey { family: family.to_string(), weight }
}

#[test]
fn keys_are_the_same_if_family_and_weight_are() {
    assert!(key("Sans", 400).same_key(&key("Sans", 400)));
    assert!(!key("Sans", 400).same_key(&key("Sans", 700)));
    assert!(!key("Sans", 400).same_key(&key("Serif", 400)));
    assert!(!key("Sans", 400).same_key(&key("sans", 400)));
}

#[test]
fn list_holds_one_value_for_each_key() {
    let mut list: KeyedList<FontCacheKey, u32> = KeyedList::new();
    assert_eq!(list.len(), 0);
    assert_eq!(list.get(&key("Sans", 400)), None);
    list.insert(key("Sans", 400), 1);
    list.insert(key("Sans", 700), 2);
    list.insert(key("Sans", 400), 3);
    assert_eq!(list.len(), 2);
    assert_eq!(list.get(&key("Sans", 400)), Some(&3));
    assert_eq!(list.get(&key("Sans", 700)), Some(&2));
    assert_eq!(list.get(&key("Mono", 700)), None);
    list.retain(&|value: &u32| *value != 3);
    assert_eq!(list.len(), 1);
    assert_eq!(list.get(&key("Sans", 400)), None);
    assert_eq!(list.get(&key("Sans", 700)), Some(&2));
    list.retain(&|_: &u32| true);
    assert_eq!(list.len(), 1);
    list.retain(&|_: &u32| false);
    assert_eq!(list.len(), 0);
}

#[test]
fn context_changes_hands_only_when_it_must() {
    assert_eq!(ContextState::NotCurrent.make_current(), (ContextState::Current, true));
    assert_eq!(ContextState::Current.make_current(), (ContextState::Current, false));
    assert_eq!(ContextState::Current.make_not_current(), (ContextState::NotCurrent, true));
    assert_eq!(ContextState::NotCurrent.make_not_current(), (ContextState::NotCurrent, false));
    assert!(ContextState::Current.swap_buffers());
    assert!(!ContextState::NotCurrent.swap_buffers());
}

#[test]
fn font_metrics_measure_unwrapped_text() {
    let metrics = GLFontMetrics {
        request: FontRequest { family: "Sans".to_string(), weight: None, pixel_size: None },
        scale_factor: 64,
    };
    let measure = |line: LineRange| LineMeasure {
        width: 10 * (line.end - line.start) as i32,
        height: 16,
    };
    assert_eq!(metrics.text_size(b"ab\ncdef\n", 20, &measure), Size { width: 40, height: 36 });
    assert_eq!(metrics.text_size(b"", 20, &measure), Size { width: 0, height: 0 });
    let glyphs: Vec<Glyph> =
        (0..3).map(|i| Glyph { byte_index: i, x: 10 * i as i32, advance_x: 10 }).collect();
    assert_eq!(metrics.text_offset_for_x_position(&glyphs, 3, 14), 1);
    assert_eq!(metrics.text_offset_for_x_position(&glyphs, 3, 100), 3);
    assert_eq!(never_breaks(100, 0), 0);
}

#[test]
fn font_metrics_resolve_their_font() {
    let metrics = GLFontMetrics {
        request: FontRequest { family: "Sans".to_string(), weight: Some(700), pixel_size: None },
        scale_factor: 96,
    };
    let mut cache = sixtyfps_rendering_backend_gl::font::FontCache::<u32>::new();
    let font = metrics.font(
        &mut cache,
        |_: &FontRequest| Vec::new(),
        &|_: &String, _: i32| None,
        &|_: &String, weight: i32| weight as u32,
    );
    assert_eq!(font.fonts, vec![700]);
    assert_eq!(font.pixel_size, 18 * 64);
}
