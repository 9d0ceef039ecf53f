use mousebatt::color::{colorref_pixel, pixel_rgb, unblend, COLOR_LOW, COLOR_NORMAL, LIGHT_LOW};
use mousebatt::digits::{blank_pixels, draw, first_text_step, text_pixels, InkBox, TextStep};
use mousebatt::glyph::paint_battery;
use mousebatt::icon::{battery_icon, icon_colors, icon_size, mask_bits, text_quality};
use mousebatt::layout::{layout, BatteryGlyph};
use mousebatt::taskbar::{
    refresh_taskbar_color, remembered_or_fallback, sample_points, taskbar_color, taskbar_is_light,
    tray_rect, ScreenRect, DARK_TASKBAR, INVALID_COLOR, LIGHT_TAG, LIGHT_TASKBAR,
    NO_TASKBAR_COLOR,
};

/// The icon pixel as single-precision arithmetic gives it.
fn unblend_in_floats(drawn: [i32; 3], fg: [i32; 3], bg: [i32; 3]) -> u32 {
    let mut coverage = 0.0f32;
    for c in 0..3 {
        let span = fg[c] - bg[c];
        if span.abs() >= 24 {
            let cov = (drawn[c] - bg[c]) as f32 / span as f32;
            coverage = coverage.max(cov.clamp(0.0, 1.0));
        }
    }
    let a = (coverage * 255.0).round() as u32;
    if a == 0 {
        return 0;
    }
    let alpha = a as f32 / 255.0;
    let mut out = a << 24;
    for c in 0..3 {
        let v = bg[c] as f32 + (drawn[c] - bg[c]) as f32 / alpha;
        out |= (v.round().clamp(0.0, 255.0) as u32) << (16 - 8 * c);
    }
    out
}

#[test]
fn unblend_equals_single_precision_on_one_span() {
    for bg in (0..256).step_by(17) {
        for fg in (0..256).step_by(13) {
            for drawn in 0..256 {
                let (d, f, b) = ([drawn; 3], [fg; 3], [bg; 3]);
                assert_eq!(unblend(d, f, b), unblend_in_floats(d, f, b), "{drawn} {fg} {bg}");
            }
        }
    }
}

#[test]
fn unblend_equals_single_precision_on_mixed_channels() {
    // A fixed walk through triples of channel values.
    let mut seed: u32 = 1;
    let mut next = || {
        seed = seed.wrapping_mul(1664525).wrapping_add(1013904223);
        (seed >> 24) as i32
    };
    for _ in 0..40_000 {
        let d = [next(), next(), next()];
        let f = [next(), next(), next()];
        let b = [next(), next(), next()];
        assert_eq!(unblend(d, f, b), unblend_in_floats(d, f, b), "{d:?} {f:?} {b:?}");
    }
}

#[test]
fn unblend_exact_values() {
    assert_eq!(unblend([255; 3], [255; 3], [0; 3]), 0xFFFF_FFFF);
    assert_eq!(unblend([128, 0, 0], [255; 3], [0; 3]), 0x80FF_0000);
    // Nearly matching colours show no coverage.
    assert_eq!(unblend([10; 3], [23; 3], [0; 3]), 0);
}

#[test]
fn outline_equals_single_precision() {
    let l = layout(16, BatteryGlyph::Below);
    for fg in 0..256u32 {
        for bg in (0..256u32).step_by(5) {
            let mut px = vec![0; 256];
            paint_battery(&mut px, 16, &l, None, fg, bg << 8);
            let red = (0.0 + fg as f32 * 0.85).round() as u32;
            let green = (bg as f32 + (0.0 - bg as f32) * 0.85).round() as u32;
            assert_eq!(px[10 * 16 + 3], (red << 16) | (green << 8), "{fg} {bg}");
        }
    }
}

#[test]
fn glyph_leaves_the_digits_alone_at_every_size() {
    for size in 1..64 {
        for glyph in [BatteryGlyph::Above, BatteryGlyph::Below] {
            let l = layout(size, glyph);
            let mut px = vec![7; (size * size) as usize];
            paint_battery(&mut px, size, &l, Some(100), COLOR_NORMAL, 0);
            for y in l.text_top..l.text_top + l.text_h {
                for x in 0..size {
                    assert_eq!(px[(y * size + x) as usize], 7);
                }
            }
        }
    }
}

#[test]
fn ink_is_measured_and_the_top_byte_dropped() {
    let fill = 0x0010_2030;
    let mut raw = vec![fill | 0xAB00_0000; 64];
    assert_eq!(draw(&raw, 8, fill), (vec![fill; 64], None));
    // Twelve steps off is still background, thirteen is ink.
    raw[9] = fill + 12;
    raw[2 * 8 + 5] = fill + 13;
    raw[6 * 8 + 1] = fill - 0x0D00;
    let (drawn, ink) = draw(&raw, 8, fill);
    assert_eq!(drawn[9], fill + 12);
    assert_eq!(
        ink,
        Some(InkBox {
            left: 1,
            top: 2,
            right: 5,
            bottom: 6
        })
    );
}

/// A canvas on which a `w` x `h` block was drawn, a quarter of the way in.
fn block(size: i32, w: i32, h: i32, ink: u32, fill: u32) -> Vec<u32> {
    let n = size * 4;
    let mut px = vec![fill; (n * n) as usize];
    for y in size..size + h {
        for x in size..size + w {
            px[(y * n + x) as usize] = ink;
        }
    }
    px
}

/// Runs the fitting with glyphs as wide and tall as the em asks for.
fn fitted(size: i32, glyph: BatteryGlyph, chars: i32) -> (Vec<u32>, i32) {
    let l = layout(size, glyph);
    let fill = colorref_pixel(LIGHT_TASKBAR);
    let ink = 0x001A_1A1A;
    let mut step = first_text_step(size, LIGHT_TASKBAR);
    let mut used = 0;
    loop {
        match step {
            TextStep::Finished(px) => return (px, used),
            TextStep::Draw(em) => {
                used = em;
                let digit = block(size, em / 2, em * 7 / 10, ink, fill);
                let text = block(size, chars * em / 2, em * 7 / 10, ink, fill);
                step = text_pixels(size, &l, LIGHT_TASKBAR, em, &digit, &text);
            }
        }
    }
}

#[test]
fn text_fits_its_box_and_is_centred() {
    let fill = colorref_pixel(LIGHT_TASKBAR);
    for size in [16, 20, 24, 32] {
        for glyph in BatteryGlyph::ALL {
            for chars in 1..=3 {
                let l = layout(size, glyph);
                let (px, em) = fitted(size, glyph, chars);
                let lit: Vec<(i32, i32)> = (0..size * size)
                    .filter(|&i| px[i as usize] != fill)
                    .map(|i| (i % size, i / size))
                    .collect();
                let x0 = lit.iter().map(|p| p.0).min().unwrap();
                let x1 = lit.iter().map(|p| p.0).max().unwrap();
                let y0 = lit.iter().map(|p| p.1).min().unwrap();
                let y1 = lit.iter().map(|p| p.1).max().unwrap();
                let (w, h) = (x1 - x0 + 1, y1 - y0 + 1);
                assert_eq!((w, h), (chars * em / 2, em * 7 / 10));
                assert!(w <= l.max_w && h <= l.max_h);
                let (left, right) = (x0, size - 1 - x1);
                assert!((0..=1).contains(&(right - left)), "L{left} R{right}");
                let (top, bottom) = (y0 - l.text_top, l.text_top + l.text_h - 1 - y1);
                assert!(top >= 0 && (0..=1).contains(&(bottom - top)), "T{top} B{bottom}");
                // The next em would not have fitted.
                let next = em + 1;
                assert!(em == size || chars * next / 2 > l.max_w || next * 7 / 10 > l.max_h);
            }
        }
    }
}

#[test]
fn text_too_wide_for_the_smallest_em_is_cut_off() {
    let (px, em) = fitted(8, BatteryGlyph::Hidden, 6);
    assert_eq!(em, 6);
    // Eighteen columns are centred on eight, so the middle rows are full.
    let fill = colorref_pixel(LIGHT_TASKBAR);
    assert!(px[3 * 8..4 * 8].iter().all(|&p| p != fill));
}

#[test]
fn undrawable_text_leaves_the_icon_blank() {
    let l = layout(16, BatteryGlyph::Hidden);
    let fill = colorref_pixel(DARK_TASKBAR);
    let empty = vec![fill; 64 * 64];
    let some = block(16, 4, 4, 0x00FF_FFFF, fill);
    for (digit, text) in [(&empty, &some), (&some, &empty)] {
        match text_pixels(16, &l, DARK_TASKBAR, 16, digit, text) {
            TextStep::Finished(px) => assert_eq!(px, blank_pixels(16, DARK_TASKBAR)),
            TextStep::Draw(_) => panic!("nothing to draw"),
        }
    }
    assert!(matches!(first_text_step(16, DARK_TASKBAR), TextStep::Draw(16)));
    assert!(matches!(first_text_step(6, DARK_TASKBAR), TextStep::Draw(6)));
    match first_text_step(5, DARK_TASKBAR) {
        TextStep::Finished(px) => assert_eq!(px, vec![0x001F_1F1F; 25]),
        TextStep::Draw(_) => panic!("too small for text"),
    }
}

#[test]
fn texts_share_a_baseline() {
    let l = layout(16, BatteryGlyph::Hidden);
    let fill = colorref_pixel(DARK_TASKBAR);
    let digit = block(16, 5, 8, 0x00FF_FFFF, fill);
    // Dots on the digit's last row only.
    let mut dots = vec![fill; 64 * 64];
    for x in [16, 19, 22] {
        dots[(16 + 7) * 64 + x] = 0x00FF_FFFF;
    }
    let rows = |text: &Vec<u32>| match text_pixels(16, &l, DARK_TASKBAR, 11, &digit, text) {
        TextStep::Finished(px) => (0..16)
            .filter(|&y| px[y * 16..(y + 1) * 16].iter().any(|&p| p != fill))
            .collect::<Vec<usize>>(),
        TextStep::Draw(_) => panic!("it fits"),
    };
    let number = rows(&digit);
    assert_eq!(number, (4..12).collect::<Vec<usize>>());
    assert_eq!(rows(&dots), [*number.last().unwrap()]);
}

#[test]
fn icon_is_transparent_but_for_text_and_glyph() {
    let (fg, bg) = icon_colors(COLOR_NORMAL, false, NO_TASKBAR_COLOR);
    assert_eq!((fg, bg), (COLOR_NORMAL, DARK_TASKBAR));
    let mut drawn = blank_pixels(16, bg);
    drawn[0] = 0x00FF_FFFF;
    let hidden = battery_icon("70", 16, BatteryGlyph::Hidden, fg, bg, drawn.clone());
    assert_eq!(hidden[0], 0xFFFF_FFFF);
    assert!(hidden[1..].iter().all(|&p| p == 0));
    let below = battery_icon("70", 16, BatteryGlyph::Below, fg, bg, drawn.clone());
    let at = |x: usize, y: usize| below[y * 16 + x];
    assert_eq!(at(4, 13), 0xFFFF_FFFF);
    assert_eq!(at(9, 13), 0xFFFF_FFFF);
    assert_eq!(at(10, 13), 0);
    assert_eq!(at(3, 10) >> 24, 216); // 190 of the 224 steps between 31 and 255
    assert_eq!(at(0, 0), 0xFFFF_FFFF);
    // A placeholder leaves the battery empty.
    let empty = battery_icon("…", 16, BatteryGlyph::Below, fg, bg, drawn);
    assert_eq!(empty[13 * 16 + 4], 0);
    assert_eq!(empty[10 * 16 + 3], at(3, 10));
}

#[test]
fn icon_colours_follow_the_taskbar() {
    let read = 0x00E1_DAD7 | LIGHT_TAG;
    assert_eq!(icon_colors(COLOR_LOW, true, read), (LIGHT_LOW, 0x00E1_DAD7));
    assert_eq!(icon_colors(COLOR_LOW, false, read), (COLOR_LOW, DARK_TASKBAR));
    assert_eq!(icon_colors(0x00123456, true, NO_TASKBAR_COLOR), (0x00123456, LIGHT_TASKBAR));
}

#[test]
fn icon_sizes_qualities_and_masks() {
    assert_eq!((icon_size(20), icon_size(0), icon_size(-4)), (20, 16, 16));
    assert_eq!(text_quality(0, 2), 3);
    assert_eq!(text_quality(1, 2), 6);
    assert_eq!(text_quality(1, 1), 4);
    assert_eq!(mask_bits(16), vec![0; 32]);
    assert_eq!(mask_bits(20), vec![0; 4 * 20]);
    assert_eq!(mask_bits(1), vec![0; 2]);
}

#[test]
fn taskbar_mode_and_rectangle() {
    assert!(taskbar_is_light(0, 1) && !taskbar_is_light(0, 0) && !taskbar_is_light(2, 1));
    let rect = |left: i32, right: i32| ScreenRect {
        left,
        top: 1040,
        right,
        bottom: 1080,
    };
    let same = |a: Option<ScreenRect>, b: ScreenRect| {
        a.is_some_and(|a| (a.left, a.top, a.right, a.bottom) == (b.left, b.top, b.right, b.bottom))
    };
    assert!(same(tray_rect(Some(rect(1700, 1716)), Some(rect(0, 1920))), rect(1700, 1716)));
    assert!(same(tray_rect(Some(rect(1700, 1715)), Some(rect(0, 1920))), rect(0, 1920)));
    assert!(same(tray_rect(None, Some(rect(0, 1920))), rect(0, 1920)));
    assert!(tray_rect(None, None).is_none());
    assert_eq!(sample_points(rect(10, 101)), ([12, 55, 98], 1042));
    // A monitor to the left of the primary one.
    assert_eq!(sample_points(rect(-1920, -5)), ([-1918, -962, -8], 1042));
}

#[test]
fn taskbar_colour_is_the_median_where_it_looks_right() {
    let samples = Some([0x00D7DAE1, 0x00FFFFFF, 0x00D0E0D0]);
    assert_eq!(taskbar_color(true, samples), 0x00D7E0E1);
    // Too bright for a dark taskbar.
    assert_eq!(taskbar_color(false, samples), DARK_TASKBAR);
    assert_eq!(taskbar_color(true, Some([INVALID_COLOR, 0xFFFFFF, 0xFFFFFF])), LIGHT_TASKBAR);
    assert_eq!(taskbar_color(true, None), LIGHT_TASKBAR);
    assert_eq!(taskbar_color(false, Some([0x646464; 3])), 0x646464);
    assert_eq!(taskbar_color(false, Some([0x656565; 3])), DARK_TASKBAR);
    assert_eq!(taskbar_color(true, Some([0x969696; 3])), 0x969696);
    assert_eq!(taskbar_color(true, Some([0x959595; 3])), LIGHT_TASKBAR);
}

#[test]
fn refreshed_colour_is_recalled_in_its_mode_only() {
    let read = refresh_taskbar_color(true, Some([0x00E1DAD7; 3]));
    assert_eq!(read, 0x00E1DAD7 | LIGHT_TAG);
    assert_eq!(remembered_or_fallback(read, true), 0x00E1DAD7);
    assert_eq!(remembered_or_fallback(read, false), DARK_TASKBAR);
    let read = refresh_taskbar_color(false, None);
    assert_eq!(read, DARK_TASKBAR);
    assert_eq!(remembered_or_fallback(read, true), LIGHT_TASKBAR);
}

#[test]
fn composited_icon_pixels_match_the_drawing() {
    // Where each channel lies between the two colours, one step is the most that
    // compositing is off.
    for t in 0..=255 {
        let (fg, bg) = ([26, 26, 26], [216, 219, 225]);
        let drawn = [0, 1, 2].map(|c| bg[c] + (fg[c] - bg[c]) * t / 255);
        let px = unblend(drawn, fg, bg);
        let (a, rgb) = ((px >> 24) as i32, pixel_rgb(px));
        for c in 0..3 {
            let back = (bg[c] * (255 - a) + rgb[c] * a + 127) / 255;
            assert!((back - drawn[c]).abs() <= 1, "{t} {c}: {back} {drawn:?}");
        }
    }
}

#[test]
fn icon_pixels_composite_back_wherever_any_pixel_of_their_alpha_does() {
    let over = |v: i32, a: i32, bg: i32| (2 * (bg * (255 - a) + v * a) + 255) / 510;
    let mut seed: u32 = 7;
    let mut next = || {
        seed = seed.wrapping_mul(1664525).wrapping_add(1013904223);
        (seed >> 24) as i32
    };
    let mut held = 0;
    for _ in 0..3_000 {
        let d = [next(), next(), next()];
        let f = [next(), next(), next()];
        let b = [next(), next(), next()];
        let px = unblend(d, f, b);
        let (a, rgb) = ((px >> 24) as i32, pixel_rgb(px));
        for c in 0..3 {
            if (0..256).any(|v| (over(v, a, b[c]) - d[c]).abs() <= 1) {
                held += 1;
                assert!((over(rgb[c], a, b[c]) - d[c]).abs() <= 1, "{d:?} {f:?} {b:?} {c}");
            }
        }
    }
    assert!(held > 0);
}
