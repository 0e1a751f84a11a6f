use subassembly::led_matrix::{cycle, LedMatrix, LedMatrixDefinition, MatrixPin, NUM_CYCLES};

#[test]
fn matrix_begins_0th_cycle() {
    let under_test = LedMatrixDefinition::new().unwrap();

    assert_eq!(under_test.driving_cycle(), 0);
}

#[test]
fn matrix_begins_pin_a() {
    let under_test = LedMatrixDefinition::new().unwrap();

    assert_eq!(under_test.driving_pin(), MatrixPin::PinA);
}

#[test]
fn matrix_step_increments_pin() {
    let mut under_test = LedMatrixDefinition::new().unwrap();

    under_test.step();

    assert_eq!(under_test.driving_pin(), MatrixPin::PinB);
}

#[test]
fn matrix_5_steps_drives_a() {
    let mut under_test = LedMatrixDefinition::new().unwrap();

    for _ in 0..5 {
        under_test.step();
    }

    assert_eq!(under_test.driving_pin(), MatrixPin::PinA);
}

#[test]
fn matrix_5_steps_increments_cycle() {
    let mut under_test = LedMatrixDefinition::new().unwrap();

    for _ in 0..5 {
        under_test.step();
    }

    assert_eq!(under_test.driving_cycle(), 1);
}

#[test]
fn matrix_20_steps_cycle_is_0() {
    let mut under_test = LedMatrixDefinition::new().unwrap();

    for _ in 0..20 {
        under_test.step();
    }

    assert_eq!(under_test.driving_cycle(), 0);
}

#[test]
fn matrix_20_steps_driving_pin_is_a() {
    let mut under_test = LedMatrixDefinition::new().unwrap();

    for _ in 0..20 {
        under_test.step();
    }

    assert_eq!(under_test.driving_pin(), MatrixPin::PinA);
}

#[test]
fn matrix_walks_the_pins_in_order() {
    let mut under_test = LedMatrixDefinition::new().unwrap();
    let order = [
        MatrixPin::PinB,
        MatrixPin::PinC,
        MatrixPin::PinD,
        MatrixPin::PinE,
        MatrixPin::PinA,
    ];

    for expected in order {
        under_test.step();
        assert_eq!(under_test.driving_pin(), expected);
    }
}

#[test]
fn matrix_cycles_count_up_to_the_last_and_start_over() {
    let mut under_test = LedMatrixDefinition::new().unwrap();

    for expected in [1u8, 2, 3, 0, 1] {
        for _ in 0..5 {
            under_test.step();
        }
        assert_eq!(under_test.driving_cycle(), expected);
    }
}

#[test]
fn matrix_set_value_stores_the_value() {
    let mut under_test = LedMatrixDefinition::new().unwrap();

    under_test.set_value(0, 17);
    under_test.set_value(19, 240);

    assert_eq!(under_test.value(0), 17);
    assert_eq!(under_test.value(19), 240);
    assert_eq!(under_test.value(1), 0);
}

#[test]
fn matrix_set_value_ignores_a_missing_led() {
    let mut under_test = LedMatrixDefinition::new().unwrap();

    under_test.set_value(20, 99);
    under_test.set_value(255, 99);

    for led in 0..20 {
        assert_eq!(under_test.value(led), 0);
    }
}

#[test]
fn matrix_clear_darkens_all_leds_and_keeps_the_turn() {
    let mut under_test = LedMatrixDefinition::new().unwrap();

    for led in 0..20 {
        under_test.set_value(led, led + 1);
    }
    for _ in 0..7 {
        under_test.step();
    }
    under_test.clear();

    for led in 0..20 {
        assert_eq!(under_test.value(led), 0);
    }
    assert_eq!(under_test.driving_pin(), MatrixPin::PinC);
    assert_eq!(under_test.driving_cycle(), 1);
}

#[test]
fn matrix_cycles_have_their_durations_and_values() {
    assert_eq!(NUM_CYCLES, 4);
    assert_eq!((cycle(0).duration, cycle(0).value), (1, 10));
    assert_eq!((cycle(1).duration, cycle(1).value), (2, 40));
    assert_eq!((cycle(2).duration, cycle(2).value), (8, 128));
    assert_eq!((cycle(3).duration, cycle(3).value), (16, 240));
}
