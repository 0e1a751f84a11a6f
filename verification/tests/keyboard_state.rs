use subassembly::keyboard_state::{KeyboardState, DEBOUNCE_COUNTER};

#[test]
fn test_new_state_reflects_change_when_debounce_is_zero() {
    let mut before_state = KeyboardState::default();
    before_state.state[0] = false;
    before_state.debounce_counter[0] = 0;

    let mut new_state: [bool; 21] = [false; 21];
    new_state[0] = true;

    let result = before_state.build_new(new_state);

    assert_eq!(result.state[0], true);
}

#[test]
fn test_state_change_sets_debounce() {
    let mut before_state = KeyboardState::default();
    before_state.state[0] = false;
    before_state.debounce_counter[0] = 0;

    let mut new_state: [bool; 21] = [false; 21];
    new_state[0] = true;

    let result = before_state.build_new(new_state);

    assert!(result.debounce_counter[0] > 0);
}

#[test]
fn test_new_state_does_not_change_when_debounce_is_gt_zero() {
    let mut before_state = KeyboardState::default();
    before_state.state[0] = false;
    before_state.debounce_counter[0] = 5;

    let mut new_state: [bool; 21] = [false; 21];
    new_state[0] = true;

    let result = before_state.build_new(new_state);

    assert_eq!(result.state[0], false);
}

#[test]
fn test_debounce_decrements_when_state_matches() {
    let mut before_state = KeyboardState::default();
    before_state.state[0] = false;
    before_state.debounce_counter[0] = 5;

    let mut new_state: [bool; 21] = [false; 21];
    new_state[0] = false;

    let result = before_state.build_new(new_state);

    assert_eq!(result.debounce_counter[0], 4);
}

#[test]
fn test_debounce_decrements_when_state_changes() {
    let mut before_state = KeyboardState::default();
    before_state.state[0] = false;
    before_state.debounce_counter[0] = 5;

    let mut new_state: [bool; 21] = [false; 21];
    new_state[0] = true;

    let result = before_state.build_new(new_state);

    assert_eq!(result.debounce_counter[0], 4);
}

#[test]
fn test_debounce_stays_zero_without_state_change() {
    let mut before_state = KeyboardState::default();
    before_state.state[0] = false;
    before_state.debounce_counter[0] = 0;

    let mut new_state: [bool; 21] = [false; 21];
    new_state[0] = false;

    let result = before_state.build_new(new_state);

    assert_eq!(result.debounce_counter[0], 0);
}

#[test]
fn test_pressed_counter_reflects_newly_pressed_item() {
    let mut before_state = KeyboardState::default();
    before_state.state[0] = false;
    before_state.debounce_counter[0] = 0;

    let mut new_state: [bool; 21] = [false; 21];
    new_state[0] = true;

    let result = before_state.build_new(new_state);

    assert_eq!(result.pressed_count, 1);
}

#[test]
fn test_pressed_reflects_newly_pressed_item() {
    let mut before_state = KeyboardState::default();
    before_state.state[0] = false;
    before_state.debounce_counter[0] = 0;

    let mut new_state: [bool; 21] = [false; 21];
    new_state[0] = true;

    let result = before_state.build_new(new_state);

    assert_eq!(result.pressed[0], true);
}

#[test]
fn test_pressed_omits_previously_pressed_item() {
    let mut before_state = KeyboardState::default();
    before_state.state[0] = true;
    before_state.debounce_counter[0] = 0;

    let mut new_state: [bool; 21] = [false; 21];
    new_state[0] = true;

    let result = before_state.build_new(new_state);

    assert_eq!(result.pressed[0], false);
}

#[test]
fn test_released_counter_reflects_newly_released_item() {
    let mut before_state = KeyboardState::default();
    before_state.state[0] = true;
    before_state.debounce_counter[0] = 0;

    let mut new_state: [bool; 21] = [false; 21];
    new_state[0] = false;

    let result = before_state.build_new(new_state);

    assert_eq!(result.released_count, 1);
}

#[test]
fn test_released_reflects_newly_released_item() {
    let mut before_state = KeyboardState::default();
    before_state.state[0] = true;
    before_state.debounce_counter[0] = 0;

    let mut new_state: [bool; 21] = [false; 21];
    new_state[0] = false;

    let result = before_state.build_new(new_state);

    assert_eq!(result.released[0], true);
}

#[test]
fn test_preleased_omits_previously_released_item() {
    let mut before_state = KeyboardState::default();
    before_state.state[0] = false;
    before_state.debounce_counter[0] = 0;

    let mut new_state: [bool; 21] = [false; 21];
    new_state[0] = false;

    let result = before_state.build_new(new_state);

    assert_eq!(result.released[0], false);
}

#[test]
fn test_default_state_is_all_up() {
    let state = KeyboardState::default();

    assert_eq!(state.state, [false; 21]);
    assert_eq!(state.debounce_counter, [0; 21]);
    assert_eq!(state.pressed, [false; 21]);
    assert_eq!(state.released, [false; 21]);
    assert_eq!(state.depressed_count, 0);
    assert_eq!(state.pressed_count, 0);
    assert_eq!(state.released_count, 0);
}

#[test]
fn test_accepted_change_loads_the_counter_one_below_the_reload_value() {
    let before_state = KeyboardState::default();
    let mut new_state = [false; 21];
    new_state[20] = true;

    let result = before_state.build_new(new_state);

    assert_eq!(result.debounce_counter[20], DEBOUNCE_COUNTER - 1);
    assert_eq!(result.debounce_counter[20], 99);
    assert_eq!(result.debounce_counter[19], 0);
}

#[test]
fn test_counts_cover_all_keys() {
    let mut before_state = KeyboardState::default();
    for key in [0usize, 5, 10] {
        before_state.state[key] = true;
    }
    before_state.state[11] = true;
    before_state.debounce_counter[11] = 3;

    let mut new_state = [false; 21];
    for key in [5usize, 10, 15, 20] {
        new_state[key] = true;
    }

    let result = before_state.build_new(new_state);

    let mut expected_state = [false; 21];
    for key in [5usize, 10, 11, 15, 20] {
        expected_state[key] = true;
    }
    let mut expected_pressed = [false; 21];
    expected_pressed[15] = true;
    expected_pressed[20] = true;
    let mut expected_released = [false; 21];
    expected_released[0] = true;

    assert_eq!(result.state, expected_state);
    assert_eq!(result.pressed, expected_pressed);
    assert_eq!(result.released, expected_released);
    assert_eq!(result.depressed_count, 5);
    assert_eq!(result.pressed_count, 2);
    assert_eq!(result.released_count, 1);
    assert_eq!(result.debounce_counter[11], 2);
    assert_eq!(result.debounce_counter[0], 99);
}

#[test]
fn test_bouncing_key_is_held_until_the_counter_has_run_out() {
    let mut state = KeyboardState::default();
    let mut down = [false; 21];
    down[7] = true;
    let up = [false; 21];

    state = state.build_new(down);
    assert!(state.state[7]);

    for scan in 0..99 {
        state = state.build_new(up);
        assert!(state.state[7], "scan {}", scan);
        assert!(!state.released[7]);
    }
    assert_eq!(state.debounce_counter[7], 0);

    state = state.build_new(up);
    assert!(!state.state[7]);
    assert!(state.released[7]);
    assert_eq!(state.released_count, 1);
    assert_eq!(state.depressed_count, 0);
}

#[test]
fn test_all_keys_down_are_counted() {
    let state = KeyboardState::default().build_new([true; 21]);

    assert_eq!(state.depressed_count, 21);
    assert_eq!(state.pressed_count, 21);
    assert_eq!(state.released_count, 0);
}
