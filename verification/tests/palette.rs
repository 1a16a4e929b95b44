use grinstrument::palette::{
    color_distance, color_square, nearest_color, nearest_entry, nearest_velocity, PALETTE,
    PALETTE_LEN,
};

/// The palette in declaration order, written out once more: a change to the
/// table or to the order of its rows shows here.
const EXPECTED_PALETTE: [(u32, u32); 129] = [
    (0x000000, 0),
    (0x1E1E1E, 1),
    (0x7F7F7F, 2),
    (0xFFFFFF, 3),
    (0xFF4C4C, 4),
    (0xFF0000, 5),
    (0x590000, 6),
    (0x190000, 7),
    (0xFFBD6C, 8),
    (0xFF5400, 9),
    (0x591D00, 10),
    (0x271B00, 11),
    (0xFFFF4C, 12),
    (0xFFFF00, 13),
    (0x595900, 14),
    (0x191900, 15),
    (0x88FF4C, 16),
    (0x54FF00, 17),
    (0x1D5900, 18),
    (0x142B00, 19),
    (0x4CFF4C, 20),
    (0x00FF00, 21),
    (0x005900, 22),
    (0x001900, 23),
    (0x4CFF5E, 24),
    (0x00FF19, 25),
    (0x00590D, 26),
    (0x001902, 27),
    (0x4CFF88, 28),
    (0x00FF55, 28),
    (0x00591D, 29),
    (0x001F12, 30),
    (0x4CFFB7, 31),
    (0x00FF99, 32),
    (0x005935, 33),
    (0x001912, 34),
    (0x4CC3FF, 35),
    (0x00A9FF, 36),
    (0x004152, 37),
    (0x001019, 38),
    (0x4C88FF, 40),
    (0x0055FF, 41),
    (0x001D59, 42),
    (0x000819, 43),
    (0x4C4CFF, 44),
    (0x0000FF, 45),
    (0x000059, 46),
    (0x000019, 47),
    (0x874CFF, 48),
    (0x5400FF, 49),
    (0x190064, 50),
    (0x0F0030, 51),
    (0xFF4CFF, 52),
    (0xFF00FF, 53),
    (0x590059, 54),
    (0x190019, 55),
    (0xFF4C87, 56),
    (0xFF0054, 57),
    (0x59001D, 58),
    (0x220013, 59),
    (0xFF1500, 60),
    (0x993500, 61),
    (0x795100, 62),
    (0x795100, 62),
    (0x436400, 63),
    (0x033900, 64),
    (0x005735, 65),
    (0x00547F, 66),
    (0x0000FF, 67),
    (0x00454F, 68),
    (0x2500CC, 69),
    (0x7F7F7F, 70),
    (0x202020, 71),
    (0xFF0000, 72),
    (0xBDFF2D, 73),
    (0xAFED06, 74),
    (0x64FF09, 75),
    (0x108B00, 76),
    (0x00FF87, 77),
    (0x00A9FF, 78),
    (0x002AFF, 79),
    (0x3F00FF, 80),
    (0x7A00FF, 81),
    (0xB21A7D, 82),
    (0x402100, 83),
    (0xFF4A00, 84),
    (0x88E106, 85),
    (0x72FF15, 86),
    (0x00FF00, 87),
    (0x3BFF26, 88),
    (0x59FF71, 89),
    (0x38FFCC, 90),
    (0x5B8AFF, 91),
    (0x3151C6, 92),
    (0x877FE9, 93),
    (0xD31DFF, 94),
    (0xFF005D, 95),
    (0xFF7F00, 96),
    (0xB9B000, 97),
    (0x90FF00, 98),
    (0x835D07, 99),
    (0x392B00, 100),
    (0x144C10, 101),
    (0x0D5038, 102),
    (0x15152A, 103),
    (0x16205A, 104),
    (0x693C1C, 105),
    (0xA8000A, 106),
    (0xDE513D, 107),
    (0xD86A1C, 108),
    (0xFFE126, 109),
    (0x9EE12F, 110),
    (0x67B50F, 111),
    (0x1E1E30, 112),
    (0xDCFF6B, 113),
    (0x80FFBD, 114),
    (0x9A99FF, 115),
    (0x8E66FF, 116),
    (0x404040, 117),
    (0x757575, 118),
    (0xE0FFFF, 119),
    (0xA00000, 120),
    (0x350000, 121),
    (0x1AD000, 122),
    (0x074200, 123),
    (0xB9B000, 124),
    (0x3F3100, 125),
    (0xB35F00, 126),
    (0x4B1502, 127),
];

fn first_declared_velocity(rgb: u32) -> u32 {
    for (entry_rgb, velocity) in EXPECTED_PALETTE.iter() {
        if *entry_rgb == rgb {
            return *velocity;
        }
    }
    panic!("{:06x} is not in the palette", rgb);
}

#[test]
fn palette_is_declared_in_the_expected_order() {
    assert_eq!(PALETTE_LEN, 129);
    assert_eq!(PALETTE.len(), PALETTE_LEN);
    for i in 0..PALETTE_LEN {
        assert_eq!(PALETTE[i], EXPECTED_PALETTE[i], "row {}", i);
    }
}

#[test]
fn palette_velocities_are_midi_data_bytes() {
    for (rgb, velocity) in PALETTE.iter() {
        assert!(*rgb <= 0xff_ffff);
        assert!(*velocity <= 127);
    }
}

#[test]
fn black_is_velocity_zero() {
    assert_eq!(nearest_velocity(0), 0);
    assert_eq!(nearest_color(0), 0);
}

#[test]
fn every_velocity_is_a_midi_data_byte() {
    let mut rgb: u32 = 0;
    while rgb <= 0xff_ffff {
        assert!(nearest_velocity(rgb) <= 127, "{:06x}", rgb);
        rgb += 0x01_0305;
    }
    assert!(nearest_velocity(0xff_ffff) <= 127);
    assert!(nearest_velocity(0x00_0001) <= 127);
}

#[test]
fn palette_entries_map_to_the_first_declared_velocity() {
    for (rgb, _) in PALETTE.iter() {
        assert_eq!(nearest_velocity(*rgb), first_declared_velocity(*rgb), "{:06x}", rgb);
        assert_eq!(nearest_color(*rgb), *rgb);
    }
}

#[test]
fn entries_without_a_twin_map_to_their_own_velocity() {
    assert_eq!(nearest_velocity(0x1E1E1E), 1);
    assert_eq!(nearest_velocity(0xFFFFFF), 3);
    assert_eq!(nearest_velocity(0x00FF55), 28);
    assert_eq!(nearest_velocity(0x4C88FF), 40);
    assert_eq!(nearest_velocity(0x4B1502), 127);
}

#[test]
fn duplicate_colors_resolve_to_the_earlier_entry() {
    assert_eq!(nearest_velocity(0x7F7F7F), 2);
    assert_eq!(nearest_velocity(0xFF0000), 5);
    assert_eq!(nearest_velocity(0x00FF00), 21);
    assert_eq!(nearest_velocity(0x00A9FF), 36);
    assert_eq!(nearest_velocity(0x0000FF), 45);
    assert_eq!(nearest_velocity(0x795100), 62);
    assert_eq!(nearest_velocity(0xB9B000), 97);
}

#[test]
fn color_square_squares_each_channel() {
    assert_eq!(color_square(0x102030), (256, 1024, 2304));
    assert_eq!(color_square(0), (0, 0, 0));
    assert_eq!(color_square(0xFFFFFF), (65025, 65025, 65025));
    assert_eq!(color_square(0x010000), (1, 0, 0));
}

#[test]
fn color_square_ignores_the_top_byte() {
    assert_eq!(color_square(0xAB102030), (256, 1024, 2304));
}

#[test]
fn color_distance_sums_absolute_differences() {
    assert_eq!(color_distance((1, 2, 3), (4, 0, 10)), 12);
    assert_eq!(color_distance((4, 0, 10), (1, 2, 3)), 12);
    assert_eq!(color_distance((7, 7, 7), (7, 7, 7)), 0);
    assert_eq!(color_distance((65025, 65025, 65025), (0, 0, 0)), 195075);
}

#[test]
fn distance_is_taken_over_squared_channels() {
    // 0xFE0000 is 509 away from 0xFF0000 (255² - 254²), nearer than anything else.
    assert_eq!(color_distance(color_square(0xFE0000), color_square(0xFF0000)), 509);
    assert_eq!(nearest_color(0xFE0000), 0xFF0000);
    assert_eq!(nearest_velocity(0xFE0000), 5);
}

#[test]
fn nearest_entry_of_colors_outside_the_palette() {
    assert_eq!(nearest_entry(0x102030), 113);
    assert_eq!(nearest_color(0x102030), 0x1E1E30);
    assert_eq!(nearest_velocity(0x102030), 112);
    assert_eq!(nearest_velocity(0x808080), 2);
    assert_eq!(nearest_velocity(0x00FFFF), 90);
    assert_eq!(nearest_velocity(0xFFAA00), 96);
    assert_eq!(nearest_velocity(0x123456), 37);
    assert_eq!(nearest_entry(0xABCDEF), 116);
    assert_eq!(nearest_velocity(0xABCDEF), 115);
}

#[test]
fn nearly_black_is_shown_as_black() {
    assert_eq!(nearest_velocity(0x000001), 0);
    assert_eq!(nearest_velocity(0x010101), 0);
}

#[test]
fn ties_go_to_the_entry_declared_first() {
    // 0x2B5820 is as far from 0x1D5900 (row 18) as from 0x00591D (row 30).
    let target = color_square(0x2B5820);
    assert_eq!(
        color_distance(target, color_square(0x1D5900)),
        color_distance(target, color_square(0x00591D))
    );
    assert_eq!(nearest_entry(0x2B5820), 18);
    assert_eq!(nearest_velocity(0x2B5820), 18);
    // 0x562024 is as far from 0x591D00 (row 10) as from 0x59001D (row 58).
    assert_eq!(nearest_entry(0x562024), 10);
    assert_eq!(nearest_velocity(0x562024), 10);
}

#[test]
fn the_search_ignores_the_top_byte() {
    assert_eq!(nearest_velocity(0xFF1E1E1E), 1);
    assert_eq!(nearest_velocity(0x01000000), 0);
}

#[test]
fn the_search_agrees_with_a_linear_scan() {
    let mut rgb: u32 = 1;
    while rgb <= 0xff_ffff {
        let target = color_square(rgb);
        let mut best = 0usize;
        let mut best_distance = u32::MAX;
        for i in 0..PALETTE_LEN {
            let d = color_distance(target, color_square(PALETTE[i].0));
            if d < best_distance {
                best = i;
                best_distance = d;
            }
        }
        assert_eq!(nearest_entry(rgb), best, "{:06x}", rgb);
        assert_eq!(nearest_velocity(rgb), PALETTE[best].1, "{:06x}", rgb);
        rgb += 0x02_0b17;
    }
}

#[test]
fn seven_rows_repeat_an_earlier_color() {
    let mut repeats: Vec<(usize, usize)> = Vec::new();
    for i in 0..PALETTE_LEN {
        if let Some(first) = (0..i).find(|k| PALETTE[*k].0 == PALETTE[i].0) {
            repeats.push((i, first));
        }
    }
    assert_eq!(
        repeats,
        vec![(63, 62), (68, 45), (71, 2), (73, 5), (79, 37), (88, 21), (125, 98)]
    );
    for (row, first) in repeats {
        assert_eq!(nearest_entry(PALETTE[row].0), first);
        assert_eq!(nearest_velocity(PALETTE[row].0), PALETTE[first].1);
    }
}

#[test]
fn rows_that_repeat_no_color_are_found_by_their_own_color() {
    let repeats = [63usize, 68, 71, 73, 79, 88, 125];
    for i in 1..PALETTE_LEN {
        if !repeats.contains(&i) {
            assert_eq!(nearest_entry(PALETTE[i].0), i);
            assert_eq!(nearest_velocity(PALETTE[i].0), PALETTE[i].1);
        }
    }
}
