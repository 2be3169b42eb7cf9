use sixtyfps_rendering_backend_gl::geometry::{
    border_rectangle, box_shadow, image_placement, Area, BoxShadow, ImageFit, Point, Ratio, Rect,
};
use sixtyfps_rendering_backend_gl::units::{from_pixels, half_of, scale_length};

fn no_clip() -> Rect {
    Rect { x: 0, y: 0, width: 0, height: 0 }
}

#[test]
fn half_rounds_towards_zero() {
    assert_eq!(half_of(7), 3);
    assert_eq!(half_of(-7), -3);
    assert_eq!(half_of(0), 0);
    assert_eq!(half_of(i64::MIN), i64::MIN / 2);
    assert_eq!(half_of(i64::MAX), i64::MAX / 2);
}

#[test]
fn pixels_are_sixty_four_units() {
    assert_eq!(from_pixels(1), 64);
    assert_eq!(from_pixels(-3), -192);
    assert_eq!(from_pixels(i32::MAX), i32::MAX as i64 * 64);
}

#[test]
fn scaling_by_one_keeps_the_length() {
    assert_eq!(scale_length(640, 64), 640);
    assert_eq!(scale_length(640, 128), 1280);
    assert_eq!(scale_length(-640, 96), -960);
    assert_eq!(scale_length(3, 32), 1);
    assert_eq!(scale_length(-3, 32), -1);
}

#[test]
fn border_is_the_requested_one_when_it_fits() {
    let geometry = Rect { x: 10, y: 20, width: 100, height: 40 };
    let drawn = border_rectangle(&geometry, 8).unwrap();
    assert_eq!(drawn.line_width, 8);
    assert_eq!(drawn.path, Area { x: 14, y: 24, width: 92, height: 32 });
}

#[test]
fn border_is_clamped_to_half_the_width() {
    let geometry = Rect { x: 10, y: 20, width: 100, height: 40 };
    let drawn = border_rectangle(&geometry, 80).unwrap();
    assert_eq!(drawn.line_width, 50);
    assert_eq!(drawn.path, Area { x: 35, y: 45, width: 50, height: -10 });
}

#[test]
fn border_inset_is_half_of_the_border_on_each_side() {
    let geometry = Rect { x: 0, y: 0, width: 200, height: 100 };
    let drawn = border_rectangle(&geometry, 10).unwrap();
    assert_eq!(drawn.path.x - 0, 5);
    assert_eq!(drawn.path.y - 0, 5);
    assert_eq!(200 - (drawn.path.x + drawn.path.width), 5);
    assert_eq!(100 - (drawn.path.y + drawn.path.height), 5);
}

#[test]
fn empty_rectangle_has_no_border_geometry() {
    assert_eq!(border_rectangle(&Rect { x: 0, y: 0, width: 0, height: 10 }, 2), None);
    assert_eq!(border_rectangle(&Rect { x: 0, y: 0, width: 10, height: -1 }, 2), None);
}

#[test]
fn extreme_border_does_not_overflow() {
    let geometry = Rect { x: i32::MAX, y: i32::MIN, width: i32::MAX, height: i32::MAX };
    let drawn = border_rectangle(&geometry, i32::MIN).unwrap();
    assert_eq!(drawn.line_width, i32::MIN as i64);
    assert_eq!(drawn.path.x, i32::MAX as i64 + (i32::MIN as i64) / 2);
    assert_eq!(drawn.path.width, i32::MAX as i64 - i32::MIN as i64);
}

#[test]
fn shadow_rectangles() {
    let shadow = BoxShadow {
        geometry: Rect { x: 10, y: 20, width: 100, height: 50 },
        offset_x: 4,
        offset_y: 6,
        blur: 8,
    };
    let drawn = box_shadow(&shadow).unwrap();
    assert_eq!(drawn.outer, Area { x: 10, y: 22, width: 108, height: 58 });
    assert_eq!(drawn.inner, Area { x: 18, y: 30, width: 92, height: 42 });
    assert_eq!(drawn.fill, Area { x: 14, y: 26, width: 100, height: 50 });
}

#[test]
fn shadow_of_an_empty_box_is_not_drawn() {
    let shadow = BoxShadow {
        geometry: Rect { x: 10, y: 20, width: 0, height: 50 },
        offset_x: 4,
        offset_y: 6,
        blur: 8,
    };
    assert_eq!(box_shadow(&shadow), None);
}

#[test]
fn intersection_of_overlapping_areas() {
    let a = Area { x: 0, y: 0, width: 10, height: 10 };
    let b = Area { x: 5, y: -5, width: 10, height: 10 };
    assert_eq!(a.intersect(&b), Area { x: 5, y: 0, width: 5, height: 5 });
    assert_eq!(b.intersect(&a), Area { x: 5, y: 0, width: 5, height: 5 });
}

#[test]
fn intersection_of_disjoint_areas_is_empty() {
    let a = Area { x: 0, y: 0, width: 10, height: 10 };
    let b = Area { x: 10, y: 0, width: 10, height: 10 };
    assert_eq!(a.intersect(&b), Area { x: 0, y: 0, width: 0, height: 0 });
    let c = Area { x: 0, y: 0, width: -3, height: 10 };
    assert_eq!(a.intersect(&c), Area { x: 0, y: 0, width: 0, height: 0 });
}

#[test]
fn intersection_at_the_limits() {
    let a = Area { x: i64::MAX - 1, y: i64::MIN, width: i64::MAX, height: i64::MAX };
    let b = Area { x: i64::MIN, y: i64::MIN, width: i64::MAX, height: i64::MAX };
    assert_eq!(a.intersect(&b), Area { x: 0, y: 0, width: 0, height: 0 });
    assert_eq!(a.intersect(&a), a);
}

#[test]
fn translate_moves_the_origin() {
    let r = Rect { x: i32::MAX, y: -5, width: 7, height: 9 };
    assert_eq!(
        r.translate(Point { x: i32::MAX, y: 5 }),
        Area { x: 2 * (i32::MAX as i64), y: 0, width: 7, height: 9 }
    );
    assert!(!r.is_empty());
    assert_eq!(r.to_area(), Area { x: i32::MAX as i64, y: -5, width: 7, height: 9 });
}

#[test]
fn contain_scales_by_the_larger_ratio() {
    let placed = image_placement(50, 50, &no_clip(), 100, 50, ImageFit::Contain).unwrap();
    assert_eq!(placed.scale_x, placed.scale_y);
    assert_eq!(placed.scale_x, Ratio { num: 50, den: 50 });
    assert_eq!(placed.scale_x.num, placed.scale_x.den);
    assert_eq!(placed.source_width, 100);
    assert_eq!(placed.source_height, 50);
}

#[test]
fn contain_takes_the_width_ratio_when_it_is_larger() {
    let placed = image_placement(300, 50, &no_clip(), 100, 50, ImageFit::Contain).unwrap();
    assert_eq!(placed.scale_x, Ratio { num: 300, den: 100 });
    assert_eq!(placed.scale_y, Ratio { num: 300, den: 100 });
}

#[test]
fn fill_scales_each_axis_by_itself() {
    let placed = image_placement(50, 50, &no_clip(), 100, 50, ImageFit::Fill).unwrap();
    assert_eq!(placed.scale_x, Ratio { num: 50, den: 100 });
    assert_eq!(placed.scale_y, Ratio { num: 50, den: 50 });
    assert_eq!((placed.paint_x, placed.paint_y), (0, 0));
    assert_eq!((placed.paint_width, placed.paint_height), (100, 50));
}

#[test]
fn clipped_source_uses_the_clip_size() {
    let clip = Rect { x: 10, y: 20, width: 30, height: 40 };
    let placed = image_placement(60, 40, &clip, 100, 100, ImageFit::Fill).unwrap();
    assert_eq!((placed.source_width, placed.source_height), (30, 40));
    assert_eq!((placed.paint_x, placed.paint_y), (-10, -20));
    assert_eq!((placed.paint_width, placed.paint_height), (100, 100));
    assert_eq!(placed.scale_x, Ratio { num: 60, den: 30 });
}

#[test]
fn nothing_is_placed_in_an_empty_target() {
    assert_eq!(image_placement(0, 50, &no_clip(), 100, 50, ImageFit::Fill), None);
    assert_eq!(image_placement(50, 0, &no_clip(), 100, 50, ImageFit::Fill), None);
    assert_eq!(image_placement(-1, 50, &no_clip(), 100, 50, ImageFit::Contain), None);
    assert_eq!(image_placement(50, 50, &no_clip(), 0, 50, ImageFit::Contain), None);
}

#[test]
fn placement_at_the_limits() {
    let placed =
        image_placement(i32::MAX, i32::MAX, &no_clip(), u32::MAX, u32::MAX, ImageFit::Contain)
            .unwrap();
    assert_eq!(placed.scale_x, Ratio { num: i32::MAX as i64, den: u32::MAX as i64 });
}
