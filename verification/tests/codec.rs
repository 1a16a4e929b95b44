use grinstrument::action::Action;
use grinstrument::akai_apc_mini_mk2::{
    color_style_to_u32, encode_button, AkaiApcMiniMk2, GRID_MASK, NOTE_OFF_STATUS, NOTE_ON_STATUS,
    SCENE_LAUNCH_OFFSET, SHIFT_BUTTON, TRACK_OFFSET,
};
use grinstrument::device::{Button, Color, ColorStyle, Lighting};
use grinstrument::state::PlayMode;

const STYLES: [(ColorStyle, u32); 16] = [
    (ColorStyle::Steady10, 0x0),
    (ColorStyle::Steady25, 0x1),
    (ColorStyle::Steady50, 0x2),
    (ColorStyle::Steady65, 0x3),
    (ColorStyle::Steady75, 0x4),
    (ColorStyle::Steady95, 0x5),
    (ColorStyle::Steady100, 0x6),
    (ColorStyle::Pulse16, 0x7),
    (ColorStyle::Pulse8, 0x8),
    (ColorStyle::Pulse4, 0x9),
    (ColorStyle::Pulse2, 0xa),
    (ColorStyle::Blink24, 0xb),
    (ColorStyle::Blink16, 0xc),
    (ColorStyle::Blink8, 0xd),
    (ColorStyle::Blink4, 0xe),
    (ColorStyle::Blink2, 0xf),
];

#[test]
fn decodes_a_press_on_grid_position_five() {
    let device = AkaiApcMiniMk2 {};
    let word = 0x20900000 | (5 << 8) | 0x00;
    assert_eq!(device.midi_to_action(0, word), Action::GridToggle { x: 5, y: 0 });
}

#[test]
fn decodes_every_cell_of_the_matrix() {
    let device = AkaiApcMiniMk2 {};
    for grid in 0..64u32 {
        let word = NOTE_ON_STATUS | (grid << 8) | 0x7f;
        assert_eq!(
            device.midi_to_action(0, word),
            Action::GridToggle { x: grid % 8, y: grid / 8 }
        );
    }
    assert_eq!(
        device.midi_to_action(0, NOTE_ON_STATUS | (63 << 8)),
        Action::GridToggle { x: 7, y: 7 }
    );
    assert_eq!(
        device.midi_to_action(0, NOTE_ON_STATUS | (8 << 8)),
        Action::GridToggle { x: 0, y: 1 }
    );
}

#[test]
fn a_release_is_no_action_at_any_position() {
    let device = AkaiApcMiniMk2 {};
    for position in 0..256u32 {
        let word = NOTE_OFF_STATUS | (position << 8) | 0x7f;
        assert_eq!(device.midi_to_action(0, word), Action::Noop);
    }
    assert_eq!(device.midi_to_action(0, 0x2080407f), Action::Noop);
}

#[test]
fn track_buttons_select_sections() {
    let device = AkaiApcMiniMk2 {};
    for pos in 0..8u32 {
        let word = NOTE_ON_STATUS | ((TRACK_OFFSET + pos) << 8) | 0x7f;
        assert_eq!(device.midi_to_action(0, word), Action::SectionSelect { pos });
    }
    assert_eq!(
        device.midi_to_action(0, 0x2090647f),
        Action::SectionSelect { pos: 0 }
    );
    assert_eq!(
        device.midi_to_action(0, 0x20906b7f),
        Action::SectionSelect { pos: 7 }
    );
}

#[test]
fn scene_launch_buttons_select_layers() {
    let device = AkaiApcMiniMk2 {};
    for pos in 0..8u32 {
        let word = NOTE_ON_STATUS | ((SCENE_LAUNCH_OFFSET + pos) << 8) | 0x7f;
        assert_eq!(device.midi_to_action(0, word), Action::LayerSelect { pos });
    }
    assert_eq!(
        device.midi_to_action(0, 0x2090707f),
        Action::LayerSelect { pos: 0 }
    );
    assert_eq!(
        device.midi_to_action(0, 0x2090777f),
        Action::LayerSelect { pos: 7 }
    );
}

#[test]
fn the_shift_button_starts_playback() {
    let device = AkaiApcMiniMk2 {};
    let word = NOTE_ON_STATUS | (SHIFT_BUTTON << 8) | 0x7f;
    assert_eq!(word, 0x20907a7f);
    assert_eq!(
        device.midi_to_action(0, word),
        Action::PlayModeChange(PlayMode::Playing)
    );
}

#[test]
fn positions_without_a_button_are_no_action() {
    let device = AkaiApcMiniMk2 {};
    for position in 0..256u32 {
        let expected_noop = !(position < 64
            || (0x64..=0x6b).contains(&position)
            || (0x70..=0x77).contains(&position)
            || position == 0x7a);
        let action = device.midi_to_action(0, NOTE_ON_STATUS | (position << 8));
        assert_eq!(action == Action::Noop, expected_noop, "position {:02x}", position);
    }
    assert_eq!(device.midi_to_action(0, 0x20904000), Action::Noop);
    assert_eq!(device.midi_to_action(0, 0x20906300), Action::Noop);
    assert_eq!(device.midi_to_action(0, 0x20906c00), Action::Noop);
    assert_eq!(device.midi_to_action(0, 0x20906f00), Action::Noop);
    assert_eq!(device.midi_to_action(0, 0x20907800), Action::Noop);
    assert_eq!(device.midi_to_action(0, 0x20907900), Action::Noop);
    assert_eq!(device.midi_to_action(0, 0x20907b00), Action::Noop);
    assert_eq!(device.midi_to_action(0, 0x2090ff00), Action::Noop);
}

#[test]
fn other_commands_are_no_action() {
    let device = AkaiApcMiniMk2 {};
    assert_eq!(device.midi_to_action(0, 0), Action::Noop);
    assert_eq!(device.midi_to_action(0, 0x20b00500), Action::Noop);
    assert_eq!(device.midi_to_action(0, 0x40903c00), Action::Noop);
    assert_eq!(device.midi_to_action(0, 0x10900500), Action::Noop);
    assert_eq!(device.midi_to_action(0, 0xffffffff), Action::Noop);
}

#[test]
fn decoding_ignores_style_color_and_context() {
    let device = AkaiApcMiniMk2 {};
    for style in 0..16u32 {
        for color in [0u32, 1, 0x7f, 0xff] {
            let word = NOTE_ON_STATUS | (style << 16) | (10 << 8) | color;
            assert_eq!(
                device.midi_to_action(style, word),
                Action::GridToggle { x: 2, y: 1 }
            );
        }
    }
}

#[test]
fn style_bits_of_each_style() {
    for (style, nibble) in STYLES.iter() {
        assert_eq!(color_style_to_u32(*style), nibble << 16);
    }
    assert_eq!(color_style_to_u32(ColorStyle::Steady100), 0x00060000);
    assert_eq!(color_style_to_u32(ColorStyle::Blink2), 0x000f0000);
    assert_eq!(color_style_to_u32(ColorStyle::Pulse16), 0x00070000);
}

#[test]
fn encode_button_packs_the_fields() {
    assert_eq!(encode_button(5, ColorStyle::Steady75, 21), 0x20940515);
    assert_eq!(encode_button(0, ColorStyle::Steady10, 0), 0x20900000);
    assert_eq!(encode_button(0xff, ColorStyle::Blink2, 0xff), 0x209fffff);
    for (style, nibble) in STYLES.iter() {
        let word = encode_button(0x2a, *style, 0x55);
        assert_eq!(word >> 20, 0x209);
        assert_eq!((word >> 16) & 0xf, *nibble);
        assert_eq!((word & GRID_MASK) >> 8, 0x2a);
        assert_eq!(word & 0xff, 0x55);
    }
}

#[test]
fn grid_words_round_trip_through_the_decoder() {
    let device = AkaiApcMiniMk2 {};
    for x in 0..8usize {
        for y in 0..8usize {
            for (style, _) in STYLES.iter() {
                let color = Color { rgb: 0x00FF00, style: *style };
                let word = device.grid_button_word(x, y, color).unwrap();
                assert_eq!(
                    device.midi_to_action(0, word),
                    Action::GridToggle { x: x as u32, y: y as u32 }
                );
            }
        }
    }
}

#[test]
fn grid_words_carry_the_nearest_velocity() {
    let device = AkaiApcMiniMk2 {};
    let green = Color { rgb: 0x00FF00, style: ColorStyle::Steady100 };
    assert_eq!(device.grid_button_word(1, 2, green), Some(0x20961115));
    let off = Color { rgb: 0, style: ColorStyle::Steady100 };
    assert_eq!(device.grid_button_word(0, 0, off), Some(0x20960000));
    let odd = Color { rgb: 0xABCDEF, style: ColorStyle::Steady50 };
    assert_eq!(device.grid_button_word(7, 7, odd), Some(0x20923f73));
    let white = Color { rgb: 0xFFFFFF, style: ColorStyle::Blink24 };
    assert_eq!(device.grid_button_word(3, 0, white), Some(0x209b0303));
}

#[test]
fn grid_words_exist_only_for_cells_of_the_matrix() {
    let device = AkaiApcMiniMk2 {};
    let color = Color { rgb: 0xFF0000, style: ColorStyle::Steady75 };
    assert_eq!(device.grid_button_word(8, 0, color), None);
    assert_eq!(device.grid_button_word(0, 8, color), None);
    assert_eq!(device.grid_button_word(usize::MAX, usize::MAX, color), None);
    assert!(device.grid_button_word(7, 7, color).is_some());
}

#[test]
fn buttons_beside_the_matrix_take_the_low_byte_of_the_color() {
    let device = AkaiApcMiniMk2 {};
    let lit = Color { rgb: 1, style: ColorStyle::Steady100 };
    let dark = Color { rgb: 0, style: ColorStyle::Steady100 };
    let wide = Color { rgb: 0x123456, style: ColorStyle::Steady10 };
    assert_eq!(device.section_button_word(0, lit), Some(0x20966401));
    assert_eq!(device.section_button_word(7, dark), Some(0x20966b00));
    assert_eq!(device.section_button_word(3, wide), Some(0x20906756));
    assert_eq!(device.layer_button_word(0, lit), Some(0x20967001));
    assert_eq!(device.layer_button_word(7, dark), Some(0x20967700));
    assert_eq!(device.layer_button_word(2, wide), Some(0x20907256));
    assert_eq!(device.play_button_word(lit), 0x20967a01);
    assert_eq!(device.play_button_word(wide), 0x20907a56);
    assert_eq!(
        device.play_button_word(Color { rgb: 1, style: ColorStyle::Blink2 }),
        0x209f7a01
    );
}

#[test]
fn the_green_of_a_cell_is_quantized_and_that_of_a_side_button_is_not() {
    let device = AkaiApcMiniMk2 {};
    let green = Color { rgb: 0x00FF00, style: ColorStyle::Steady100 };
    assert_eq!(device.grid_button_word(0, 0, green).unwrap() & 0xff, 21);
    assert_eq!(device.section_button_word(0, green).unwrap() & 0xff, 0);
    assert_eq!(device.layer_button_word(0, green).unwrap() & 0xff, 0);
    assert_eq!(device.play_button_word(green) & 0xff, 0);
}

#[test]
fn side_buttons_exist_only_for_eight_positions() {
    let device = AkaiApcMiniMk2 {};
    let lit = Color { rgb: 1, style: ColorStyle::Steady100 };
    assert_eq!(device.section_button_word(8, lit), None);
    assert_eq!(device.layer_button_word(8, lit), None);
    assert_eq!(device.section_button_word(usize::MAX, lit), None);
    assert_eq!(device.layer_button_word(usize::MAX, lit), None);
}

#[test]
fn side_button_words_round_trip_through_the_decoder() {
    let device = AkaiApcMiniMk2 {};
    let lit = Color { rgb: 1, style: ColorStyle::Steady100 };
    for index in 0..8usize {
        let section = device.section_button_word(index, lit).unwrap();
        assert_eq!(
            device.midi_to_action(0, section),
            Action::SectionSelect { pos: index as u32 }
        );
        let layer = device.layer_button_word(index, lit).unwrap();
        assert_eq!(
            device.midi_to_action(0, layer),
            Action::LayerSelect { pos: index as u32 }
        );
    }
    assert_eq!(
        device.midi_to_action(0, device.play_button_word(lit)),
        Action::PlayModeChange(PlayMode::Playing)
    );
}

#[test]
fn lighting_word_goes_by_the_button() {
    let device = AkaiApcMiniMk2 {};
    let color = Color { rgb: 0x00FF00, style: ColorStyle::Steady75 };
    assert_eq!(
        device.lighting_word(Lighting { button: Button::Play, color }),
        Some(device.play_button_word(color))
    );
    assert_eq!(
        device.lighting_word(Lighting { button: Button::Section { index: 4 }, color }),
        device.section_button_word(4, color)
    );
    assert_eq!(
        device.lighting_word(Lighting { button: Button::Layer { index: 5 }, color }),
        device.layer_button_word(5, color)
    );
    assert_eq!(
        device.lighting_word(Lighting { button: Button::Grid { x: 6, y: 1 }, color }),
        Some(0x20940e15)
    );
    assert_eq!(
        device.lighting_word(Lighting { button: Button::Grid { x: 8, y: 1 }, color }),
        None
    );
    assert_eq!(
        device.lighting_word(Lighting { button: Button::Section { index: 8 }, color }),
        None
    );
}
