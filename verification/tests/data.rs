use subassembly::illuminator::data::{
    adjacency_recursion, max, min, PixelHelpers, ADJACENCY_BY_INDEX, RGB8,
};

#[test]
fn test_serialize_deserialize() {
    let color = RGB8 { r: 255, g: 0, b: 0 };
    let data = color.serialize();
    let result = RGB8::deserialize(data);

    assert_eq!(result, color);

    let color = RGB8 { r: 0, g: 255, b: 0 };
    let data = color.serialize();
    let result = RGB8::deserialize(data);

    assert_eq!(result, color);

    let color = RGB8 { r: 0, g: 0, b: 255 };
    let data = color.serialize();
    let result = RGB8::deserialize(data);

    assert_eq!(result, color);

    let color = RGB8 {
        r: 100,
        g: 122,
        b: 140,
    };
    let data = color.serialize();
    let result = RGB8::deserialize(data);

    assert_eq!(result, color);
}

#[test]
fn test_fade_color_at_start() {
    let color_start = RGB8 { r: 255, g: 0, b: 0 };
    let color_end = RGB8 { r: 0, g: 0, b: 0 };

    let result = color_start.fade(color_end, 0);

    assert_eq!(result, color_start);
}

#[test]
fn test_serialize_packs_red_low_and_blue_high() {
    assert_eq!(RGB8 { r: 0x12, g: 0x34, b: 0x56 }.serialize(), 0x0056_3412);
    assert_eq!(RGB8 { r: 255, g: 255, b: 255 }.serialize(), 0x00FF_FFFF);
    assert_eq!(RGB8::default().serialize(), 0);
}

#[test]
fn test_deserialize_ignores_the_top_byte() {
    assert_eq!(
        RGB8::deserialize(0xAB56_3412),
        RGB8 { r: 0x12, g: 0x34, b: 0x56 }
    );
    assert_eq!(RGB8::deserialize(u32::MAX), RGB8 { r: 255, g: 255, b: 255 });
}

#[test]
fn test_default_color_is_black() {
    assert_eq!(RGB8::default(), RGB8 { r: 0, g: 0, b: 0 });
}

#[test]
fn test_fade_blends_each_channel() {
    let from = RGB8 { r: 255, g: 0, b: 100 };
    let to = RGB8 { r: 0, g: 64, b: 200 };

    assert_eq!(from.fade(to, 50), RGB8 { r: 127, g: 32, b: 150 });
    assert_eq!(from.fade(to, 25), RGB8 { r: 191, g: 16, b: 125 });
    assert_eq!(from.fade(to, 100), to);
}

#[test]
fn test_fade_beyond_100_percent_counts_as_100() {
    let from = RGB8 { r: 255, g: 0, b: 100 };
    let to = RGB8 { r: 0, g: 64, b: 200 };

    assert_eq!(from.fade(to, 101), to);
    assert_eq!(from.fade(to, 255), to);
}

#[test]
fn test_set_led_color_raises_channels_only() {
    let mut pixel = RGB8 { r: 10, g: 200, b: 30 };

    let modified = pixel.set_led_color(8, RGB8 { r: 50, g: 100, b: 30 });

    assert!(modified);
    assert_eq!(pixel, RGB8 { r: 50, g: 200, b: 30 });

    let modified = pixel.set_led_color(20, RGB8 { r: 50, g: 100, b: 30 });

    assert!(!modified);
    assert_eq!(pixel, RGB8 { r: 50, g: 200, b: 30 });
}

#[test]
fn test_set_led_color_halves_the_octave_keys() {
    for index in 0..8 {
        let mut pixel = RGB8 { r: 0, g: 0, b: 0 };

        let modified = pixel.set_led_color(index, RGB8 { r: 255, g: 101, b: 1 });

        assert!(modified);
        assert_eq!(pixel, RGB8 { r: 127, g: 50, b: 0 });
    }
}

#[test]
fn test_min_and_max() {
    assert_eq!(min(3, 7), 3);
    assert_eq!(min(7, 3), 3);
    assert_eq!(min(5, 5), 5);
    assert_eq!(max(3, 7), 7);
    assert_eq!(max(7, 3), 7);
    assert_eq!(max(0, 255), 255);
}

#[test]
fn test_adjacency_is_symmetric() {
    for (index, neighbors) in ADJACENCY_BY_INDEX.iter().enumerate() {
        for &neighbor in neighbors {
            if neighbor != 255 {
                assert!(
                    ADJACENCY_BY_INDEX[neighbor as usize].contains(&(index as u8)),
                    "{} lists {} but not the other way round",
                    index,
                    neighbor
                );
            }
        }
    }
}

#[test]
fn test_adjacency_recursion_for_18_calls_8_9_17_19() {
    let calls = adjacency_recursion(255, 18, 0);

    assert_eq!(calls, vec![(9, 0), (8, 0), (17, 0), (19, 0)]);
}

#[test]
fn test_adjacency_recursion_for_18_two_levels_calls_all() {
    let calls = adjacency_recursion(255, 18, 1);

    assert_eq!(
        calls,
        vec![
            (9, 1),
            (4, 0),
            (5, 0),
            (10, 0),
            (8, 0),
            (17, 0),
            (8, 1),
            (5, 0),
            (6, 0),
            (9, 0),
            (19, 0),
            (17, 1),
            (10, 0),
            (9, 0),
            (16, 0),
            (19, 1),
            (8, 0),
            (20, 0),
        ]
    );
}

#[test]
fn test_adjacency_recursion_skips_the_previous_key() {
    let calls = adjacency_recursion(9, 18, 0);

    assert_eq!(calls, vec![(8, 0), (17, 0), (19, 0)]);
}
