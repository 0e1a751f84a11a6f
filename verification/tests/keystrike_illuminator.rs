use subassembly::illuminator::data::{PixelHelpers, RGB8};
use subassembly::illuminator::illuminator::Illuminator;
use subassembly::illuminator::keystrike_animation::octave_selected_color_1;
use subassembly::illuminator::keystrike_illuminator::{
    KeyData, KeyState, KeyType, KeystrikeIlluminator,
};
use subassembly::keyboard_state::KeyboardState;
use subassembly::synth_engine::SynthState;

#[test]
fn test_no_update_has_no_state() {
    let illuminator = KeystrikeIlluminator::new();

    for key_index in 0..21 {
        let key_data = illuminator.key_data(key_index);

        assert_eq!(
            key_data.state,
            KeyState::Off,
            "Key {} has state {:?}",
            key_index,
            key_data.state
        );
    }
}

#[test]
fn test_no_state_with_octave_selects_octave() {
    let mut illuminator = KeystrikeIlluminator::new();

    let keyboard_state = KeyboardState::default();
    let mut synth_state = SynthState::new();

    synth_state.octave = 4;

    illuminator.update(0, &keyboard_state, &synth_state);

    assert_eq!(illuminator.key_data(3).state, KeyState::Selected);
    assert_eq!(illuminator.key_data(3).counter, 0);

    let mut leds = [RGB8::default(); 21];

    illuminator.render(&mut leds);

    assert_eq!(leds[3], octave_selected_color_1());
}

#[test]
fn test_with_keypress_18_shows_pressed() {
    let mut illuminator = KeystrikeIlluminator::new();

    let mut keyboard_state = KeyboardState::default();
    let mut synth_state = SynthState::new();

    synth_state.octave = 4;
    keyboard_state.state[18] = true;

    illuminator.update(0, &keyboard_state, &synth_state);

    illuminator.update(1000, &keyboard_state, &synth_state);

    for key_index in 8..21 {
        let key_data = illuminator.key_data(key_index);

        match key_index {
            18 => {
                assert_eq!(
                    key_data.state,
                    KeyState::Pressed,
                    "Key {} has state {:?}",
                    key_index,
                    key_data.state
                );
            }
            9 | 8 | 17 | 19 | 4 | 5 | 6 | 10 | 16 | 20 => {
                assert_eq!(
                    key_data.state,
                    KeyState::Radiant,
                    "Key {} has state {:?}",
                    key_index,
                    key_data.state
                );
            }
            _ => {
                assert_eq!(
                    key_data.state,
                    KeyState::Off,
                    "Key {} has state {:?}",
                    key_index,
                    key_data.state
                );
            }
        }
    }
}

#[test]
fn test_with_keypress_18_sustained_shows_pressed() {
    let mut illuminator = KeystrikeIlluminator::new();

    let mut keyboard_state = KeyboardState::default();
    let mut synth_state = SynthState::new();

    synth_state.octave = 4;
    keyboard_state.state[18] = true;

    illuminator.update(0, &keyboard_state, &synth_state);

    illuminator.update(60, &keyboard_state, &synth_state);

    illuminator.update(10, &keyboard_state, &synth_state);

    for key_index in 8..21 {
        let key_data = illuminator.key_data(key_index);

        match key_index {
            18 => {
                assert_eq!(
                    key_data.state,
                    KeyState::Pressed,
                    "Key {} has state {:?}",
                    key_index,
                    key_data.state
                );
            }
            9 | 8 | 17 | 19 | 4 | 5 | 6 | 10 | 16 | 20 => {
                assert_eq!(
                    key_data.state,
                    KeyState::Fade,
                    "Key {} has state {:?}",
                    key_index,
                    key_data.state
                );
            }
            _ => {
                assert_eq!(
                    key_data.state,
                    KeyState::Off,
                    "Key {} has state {:?}",
                    key_index,
                    key_data.state
                );
            }
        }
    }
}

#[test]
fn test_with_keypress_18_released_shows_fade() {
    let mut illuminator = KeystrikeIlluminator::new();

    let mut keyboard_state = KeyboardState::default();
    let mut synth_state = SynthState::new();

    synth_state.octave = 4;
    keyboard_state.state[18] = true;

    illuminator.update(0, &keyboard_state, &synth_state);

    keyboard_state.state[18] = false;

    illuminator.update(10, &keyboard_state, &synth_state);

    for key_index in 8..21 {
        let key_data = illuminator.key_data(key_index);

        match key_index {
            18 => {
                assert_eq!(
                    key_data.state,
                    KeyState::Fade,
                    "Key {} has state {:?}",
                    key_index,
                    key_data.state
                );
                assert_eq!(
                    key_data.counter, 0,
                    "Key {} has counter {}",
                    key_index, key_data.counter
                );
            }
            9 | 8 | 17 | 19 | 4 | 5 | 6 | 10 | 16 | 20 => {
                assert_eq!(
                    key_data.state,
                    KeyState::Radiant,
                    "Key {} has state {:?}",
                    key_index,
                    key_data.state
                );
                assert_eq!(
                    key_data.counter, 10,
                    "Key {} has counter {}",
                    key_index, key_data.counter
                );
            }
            _ => {
                assert_eq!(
                    key_data.state,
                    KeyState::Off,
                    "Key {} has state {:?}",
                    key_index,
                    key_data.state
                );
            }
        }
    }
}

#[test]
fn test_with_keypress_18_released_delay_shows_off() {
    let mut illuminator = KeystrikeIlluminator::new();

    let mut keyboard_state = KeyboardState::default();
    let mut synth_state = SynthState::new();

    synth_state.octave = 4;
    keyboard_state.state[18] = true;

    illuminator.update(0, &keyboard_state, &synth_state);

    keyboard_state.state[18] = false;

    //First update to Fade sets counter to zero.  Also sets radiant keys to radiant expiration
    illuminator.update(50, &keyboard_state, &synth_state);
    // Expires radiant keys
    illuminator.update(10, &keyboard_state, &synth_state);
    illuminator.update(10, &keyboard_state, &synth_state);

    illuminator.update(500, &keyboard_state, &synth_state);

    illuminator.update(501, &keyboard_state, &synth_state);

    for key_index in 8..21 {
        let key_data = illuminator.key_data(key_index);

        assert_eq!(
            key_data.state,
            KeyState::Off,
            "Key {} has state {:?}",
            key_index,
            key_data.state
        );
    }
}

#[test]
fn test_new_key_data_is_off_and_zero() {
    assert_eq!(
        KeyData::new(),
        KeyData {
            state: KeyState::Off,
            data: 0,
            counter: 0
        }
    );
}

#[test]
fn test_keytype_for_index_splits_at_key_8() {
    for key_index in 0..8 {
        assert_eq!(
            KeystrikeIlluminator::keytype_for_index(key_index),
            KeyType::Octave
        );
    }
    for key_index in 8..21 {
        assert_eq!(
            KeystrikeIlluminator::keytype_for_index(key_index),
            KeyType::Normal
        );
    }
}

#[test]
fn test_compute_pixel_follows_state_and_key_type() {
    let mut key = KeyData::new();
    assert_eq!(KeystrikeIlluminator::compute_pixel(KeyType::Normal, &key), None);
    assert_eq!(KeystrikeIlluminator::compute_pixel_for_index(0, &key), None);

    key.state = KeyState::Pressed;
    assert_eq!(
        KeystrikeIlluminator::compute_pixel(KeyType::Normal, &key),
        Some(RGB8 { r: 0, g: 255, b: 0 })
    );
    assert_eq!(
        KeystrikeIlluminator::compute_pixel(KeyType::Octave, &key),
        Some(RGB8 { r: 0, g: 64, b: 255 })
    );
    assert_eq!(
        KeystrikeIlluminator::compute_pixel_for_index(7, &key),
        Some(RGB8 { r: 0, g: 64, b: 255 })
    );
    assert_eq!(
        KeystrikeIlluminator::compute_pixel_for_index(8, &key),
        Some(RGB8 { r: 0, g: 255, b: 0 })
    );

    key.state = KeyState::Selected;
    assert_eq!(
        KeystrikeIlluminator::compute_pixel(KeyType::Normal, &key),
        Some(RGB8 { r: 0, g: 0, b: 32 })
    );

    key.state = KeyState::Radiant;
    key.data = 1;
    assert_eq!(
        KeystrikeIlluminator::compute_pixel(KeyType::Normal, &key),
        Some(RGB8 { r: 239, g: 64, b: 161 })
    );

    key.state = KeyState::Fade;
    key.data = RGB8 { r: 200, g: 100, b: 50 }.serialize();
    key.counter = 500;
    assert_eq!(
        KeystrikeIlluminator::compute_pixel(KeyType::Octave, &key),
        Some(RGB8 { r: 100, g: 50, b: 25 })
    );
}

#[test]
fn test_strike_marks_neighbors_with_the_level_of_the_first_visit() {
    let mut illuminator = KeystrikeIlluminator::new();
    let mut keyboard_state = KeyboardState::default();
    let synth_state = SynthState::new();

    keyboard_state.state[18] = true;
    illuminator.update(0, &keyboard_state, &synth_state);

    assert_eq!(
        illuminator.key_data(9),
        KeyData { state: KeyState::Radiant, data: 1, counter: 0 }
    );
    for key_index in [4usize, 5, 6, 8, 10, 16, 17, 19, 20] {
        assert_eq!(
            illuminator.key_data(key_index),
            KeyData { state: KeyState::Radiant, data: 0, counter: 0 },
            "key {}",
            key_index
        );
    }
    assert_eq!(
        illuminator.key_data(3),
        KeyData { state: KeyState::Selected, data: 0, counter: 0 }
    );
    for key_index in [0usize, 1, 2, 7, 11, 12, 13, 14, 15] {
        assert_eq!(illuminator.key_data(key_index), KeyData::new(), "key {}", key_index);
    }
}

#[test]
fn test_released_key_fades_from_the_color_it_showed() {
    let mut illuminator = KeystrikeIlluminator::new();
    let mut keyboard_state = KeyboardState::default();
    let synth_state = SynthState::new();

    keyboard_state.state[13] = true;
    illuminator.update(0, &keyboard_state, &synth_state);
    illuminator.update(500, &keyboard_state, &synth_state);
    assert_eq!(
        illuminator.key_data(13),
        KeyData { state: KeyState::Pressed, data: 0, counter: 500 }
    );

    keyboard_state.state[13] = false;
    illuminator.update(7, &keyboard_state, &synth_state);

    assert_eq!(
        illuminator.key_data(13),
        KeyData {
            state: KeyState::Fade,
            data: RGB8 { r: 0, g: 159, b: 0 }.serialize(),
            counter: 0
        }
    );
}

#[test]
fn test_fading_key_pressed_again_keeps_its_counter() {
    let mut illuminator = KeystrikeIlluminator::new();
    let mut keyboard_state = KeyboardState::default();
    let synth_state = SynthState::new();

    keyboard_state.state[13] = true;
    illuminator.update(0, &keyboard_state, &synth_state);
    keyboard_state.state[13] = false;
    illuminator.update(0, &keyboard_state, &synth_state);
    illuminator.update(300, &keyboard_state, &synth_state);
    assert_eq!(illuminator.key_data(13).state, KeyState::Fade);
    assert_eq!(illuminator.key_data(13).counter, 300);

    keyboard_state.state[13] = true;
    illuminator.update(5, &keyboard_state, &synth_state);

    assert_eq!(illuminator.key_data(13).state, KeyState::Pressed);
    assert_eq!(illuminator.key_data(13).counter, 300);
}

#[test]
fn test_octave_change_fades_the_key_selected_before() {
    let mut illuminator = KeystrikeIlluminator::new();
    let keyboard_state = KeyboardState::default();
    let mut synth_state = SynthState::new();

    illuminator.update(100, &keyboard_state, &synth_state);
    assert_eq!(
        illuminator.key_data(3),
        KeyData { state: KeyState::Selected, data: 0, counter: 100 }
    );

    synth_state.octave = 6;
    illuminator.update(100, &keyboard_state, &synth_state);

    assert_eq!(
        illuminator.key_data(3),
        KeyData {
            state: KeyState::Fade,
            data: RGB8 { r: 0, g: 0, b: 32 }.serialize(),
            counter: 0
        }
    );
    assert_eq!(
        illuminator.key_data(5),
        KeyData { state: KeyState::Selected, data: 0, counter: 100 }
    );
}

#[test]
fn test_render_paints_lit_keys_and_leaves_the_others() {
    let mut illuminator = KeystrikeIlluminator::new();
    let mut keyboard_state = KeyboardState::default();
    let synth_state = SynthState::new();

    keyboard_state.state[20] = true;
    illuminator.update(0, &keyboard_state, &synth_state);

    let marker = RGB8 { r: 1, g: 2, b: 3 };
    let mut leds = [marker; 21];
    illuminator.render(&mut leds);

    assert_eq!(leds[20], RGB8 { r: 0, g: 255, b: 0 });
    assert_eq!(leds[19], RGB8 { r: 239, g: 64, b: 161 });
    assert_eq!(leds[8], RGB8 { r: 17, g: 64, b: 4 });
    assert_eq!(leds[18], RGB8 { r: 17, g: 64, b: 4 });
    assert_eq!(leds[3], RGB8 { r: 0, g: 0, b: 32 });
    for key_index in [0usize, 1, 2, 4, 5, 6, 7, 9, 10, 11, 12, 13, 14, 15, 16, 17] {
        assert_eq!(leds[key_index], marker, "key {}", key_index);
    }
}

#[test]
fn test_glow_reaches_two_rings_and_no_further() {
    let mut illuminator = KeystrikeIlluminator::new();
    let mut keyboard_state = KeyboardState::default();
    let synth_state = SynthState::new();

    keyboard_state.state[18] = true;
    illuminator.update(0, &keyboard_state, &synth_state);
    illuminator.update(1000, &keyboard_state, &synth_state);

    for key_index in [8usize, 9, 17, 19, 4, 5, 6, 10, 16, 20] {
        assert_eq!(illuminator.key_data(key_index).state, KeyState::Radiant, "key {}", key_index);
    }
    for key_index in [7usize, 11, 12, 13, 14, 15] {
        assert_eq!(illuminator.key_data(key_index).state, KeyState::Off, "key {}", key_index);
    }
}

#[test]
fn test_can_update_refuses_an_octave_without_key() {
    let illuminator = KeystrikeIlluminator::new();
    let keyboard_state = KeyboardState::default();
    let mut synth_state = SynthState::new();

    for octave in [1u8, 8, 21] {
        synth_state.octave = octave;
        assert!(illuminator.can_update(10, &keyboard_state, &synth_state));
    }
    for octave in [0u8, 22, 255] {
        synth_state.octave = octave;
        assert!(!illuminator.can_update(10, &keyboard_state, &synth_state));
    }
}

#[test]
fn test_can_update_refuses_a_counter_that_would_leave_its_range() {
    let mut illuminator = KeystrikeIlluminator::new();
    let mut keyboard_state = KeyboardState::default();
    let synth_state = SynthState::new();

    keyboard_state.state[18] = true;
    illuminator.update(0, &keyboard_state, &synth_state);
    assert!(illuminator.can_update(u32::MAX, &keyboard_state, &synth_state));
    illuminator.update(u32::MAX, &keyboard_state, &synth_state);
    assert_eq!(illuminator.key_data(18).counter, u32::MAX);

    assert!(illuminator.can_update(0, &keyboard_state, &synth_state));
    assert!(!illuminator.can_update(1, &keyboard_state, &synth_state));
    assert_eq!(illuminator.key_data(18).counter, u32::MAX);

    keyboard_state.state[18] = false;
    assert!(!illuminator.can_update(1, &keyboard_state, &synth_state));
}
