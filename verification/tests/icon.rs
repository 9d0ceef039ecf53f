use mousebatt::color::{
    colorref_pixel, colorref_rgb, light_variant, pixel_rgb, unblend, COLOR_CHARGING, COLOR_LOW,
    COLOR_NORMAL, COLOR_STALE, LIGHT_NORMAL,
};
use mousebatt::glyph::paint_battery;
use mousebatt::layout::{fill_width, layout, BatteryGlyph};
use mousebatt::taskbar::{
    remembered_or_fallback, DARK_TASKBAR, LIGHT_TAG, LIGHT_TASKBAR, NO_TASKBAR_COLOR,
};

/// An icon pixel composited over `bg`, as the shell draws it.
fn composite(px: u32, bg: [i32; 3]) -> [i32; 3] {
    let a = (px >> 24) as f32 / 255.0;
    let rgb = pixel_rgb(px);
    let mut out = [0; 3];
    for c in 0..3 {
        out[c] = (bg[c] as f32 * (1.0 - a) + rgb[c] as f32 * a).round() as i32;
    }
    out
}

#[test]
fn light_palette_differs_from_dark() {
    for c in [COLOR_NORMAL, COLOR_LOW, COLOR_CHARGING, COLOR_STALE] {
        assert_ne!(light_variant(c), c, "{c:06X}");
    }
}

#[test]
fn colour_conversions_agree() {
    assert_eq!(colorref_rgb(0x001C2BC4), [0xC4, 0x2B, 0x1C]);
    assert_eq!(pixel_rgb(0x00C42B1C), [0xC4, 0x2B, 0x1C]);
    assert_eq!(colorref_pixel(0x001C2BC4), 0x00C42B1C);
}

#[test]
fn unblend_composites_back_to_what_gdi_drew() {
    let bg = [216, 219, 225]; // a light, transparent taskbar
    let lerp = |a: i32, b: i32, t: f32| (a as f32 + (b - a) as f32 * t).round() as i32;
    for fg in [[26, 26, 26], [196, 43, 28], [15, 123, 15], [112, 112, 112]] {
        // ClearType covers each channel separately.
        for t in [
            [0.0, 0.0, 0.0],
            [1.0, 1.0, 1.0],
            [0.5, 0.5, 0.5],
            [0.3, 0.6, 0.9],
            [0.9, 0.6, 0.3],
        ] {
            let drawn = [
                lerp(bg[0], fg[0], t[0]),
                lerp(bg[1], fg[1], t[1]),
                lerp(bg[2], fg[2], t[2]),
            ];
            let back = composite(unblend(drawn, fg, bg), bg);
            for c in 0..3 {
                assert!(
                    (back[c] - drawn[c]).abs() <= 1,
                    "fg {fg:?} t {t:?}: {back:?} != {drawn:?}"
                );
            }
        }
    }
    assert_eq!(
        unblend(bg, [26, 26, 26], bg),
        0,
        "untouched background is transparent"
    );
    assert_eq!(
        unblend([26, 26, 26], [26, 26, 26], bg) >> 24,
        255,
        "full coverage is opaque"
    );
}

#[test]
fn remembered_taskbar_colour_only_applies_to_its_mode() {
    assert_eq!(
        remembered_or_fallback(NO_TASKBAR_COLOR, true),
        LIGHT_TASKBAR
    );
    assert_eq!(
        remembered_or_fallback(NO_TASKBAR_COLOR, false),
        DARK_TASKBAR
    );
    let read_light = 0x00E1DAD7 | LIGHT_TAG;
    assert_eq!(remembered_or_fallback(read_light, true), 0x00E1DAD7);
    assert_eq!(remembered_or_fallback(read_light, false), DARK_TASKBAR);
    assert_eq!(remembered_or_fallback(0x00202020, false), 0x00202020);
    assert_eq!(remembered_or_fallback(0x00202020, true), LIGHT_TASKBAR);
}

#[test]
fn layouts_match_the_16px_design_and_fit_every_size() {
    let geometry = |g| {
        let l = layout(16, g);
        (
            l.body_x, l.body_y, l.body_w, l.body_h, l.text_top, l.text_h, l.max_w, l.max_h,
        )
    };
    assert_eq!(geometry(BatteryGlyph::Below), (3, 10, 10, 6, 0, 8, 14, 8));
    assert_eq!(geometry(BatteryGlyph::Above), (3, 0, 10, 6, 8, 8, 14, 8));
    assert_eq!(geometry(BatteryGlyph::Hidden), (3, 0, 0, 0, 0, 16, 14, 10));
    for size in [16, 20, 24, 32] {
        for g in BatteryGlyph::ALL {
            let l = layout(size, g);
            assert!(
                l.max_h <= l.text_h,
                "{size} {g:?}: digits taller than their box"
            );
            assert!(
                l.text_top + l.text_h <= size,
                "{size} {g:?}: text box off the icon"
            );
            assert!(
                l.body_x + l.body_w + l.line <= size,
                "{size} {g:?}: glyph too wide"
            );
            assert!(
                l.body_y + l.body_h <= size,
                "{size} {g:?}: glyph off the icon"
            );
            let gap = match g {
                BatteryGlyph::Hidden => continue,
                BatteryGlyph::Above => l.text_top - (l.body_y + l.body_h),
                BatteryGlyph::Below => l.body_y - (l.text_top + l.text_h),
            };
            assert!(
                gap >= 2,
                "{size} {g:?}: {gap}-row gap merges text and glyph"
            );
        }
    }
}

#[test]
fn fill_width_rounds_and_keeps_a_sliver() {
    assert_eq!(fill_width(6, None), 0);
    assert_eq!(fill_width(6, Some(0)), 0);
    assert_eq!(fill_width(6, Some(1)), 1);
    assert_eq!(fill_width(6, Some(50)), 3);
    assert_eq!(fill_width(6, Some(70)), 4);
    assert_eq!(fill_width(6, Some(100)), 6);
    assert_eq!(fill_width(6, Some(255)), 6);
}

#[test]
fn battery_glyph_pixels_at_16px() {
    let (fg, bg) = (LIGHT_NORMAL, LIGHT_TASKBAR);
    let fill = colorref_pixel(bg);
    let mut px = vec![fill; 256];
    paint_battery(
        &mut px,
        16,
        &layout(16, BatteryGlyph::Below),
        Some(70),
        fg,
        bg,
    );
    let at = |x: usize, y: usize| px[y * 16 + x];
    let outline = at(3, 10);
    assert_ne!(outline, fill);
    for (x, y) in [(12, 10), (3, 15), (12, 15), (13, 11), (13, 14)] {
        assert_eq!(at(x, y), outline, "outline/terminal at ({x},{y})");
    }
    for (x, y) in [(13, 10), (13, 15), (2, 13), (14, 13)] {
        assert_eq!(at(x, y), fill, "background at ({x},{y})");
    }
    // 70% of the 8-px inside is 6 px.
    assert_eq!(at(4, 13), colorref_pixel(fg));
    assert_eq!(at(9, 13), colorref_pixel(fg));
    assert_eq!(at(10, 13), fill);
    assert!(
        px[..16 * 10].iter().all(|&p| p == fill),
        "glyph stays below the text"
    );
}
