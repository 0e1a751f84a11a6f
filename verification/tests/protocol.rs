use subassembly::comms::{BusCommand, BusStatus};
use subassembly::illuminator::IlluminationEngine;
use subassembly::protocol::{
    build_response, lookup_register, process_command, ReadHandler, RegisterEntry, WriteHandler,
};
use subassembly::synth_engine::{NoteState, SynthEngine};

fn command(register: u8, payload: &[u8], read_direction: bool) -> BusCommand {
    let mut data = [0u8; 20];
    data[..payload.len()].copy_from_slice(payload);
    BusCommand {
        register,
        data,
        data_size: payload.len(),
        read_direction,
    }
}

#[test]
fn register_table_has_the_two_octave_registers() {
    assert_eq!(
        lookup_register(0x10),
        Some(RegisterEntry {
            write: Some(WriteHandler::SetOctave),
            read: Some(ReadHandler::OctaveAndNotes)
        })
    );
    assert_eq!(
        lookup_register(0x20),
        Some(RegisterEntry {
            write: Some(WriteHandler::SetOctave),
            read: Some(ReadHandler::Octave)
        })
    );
    for register in (0..=255u8).filter(|register| *register != 0x10 && *register != 0x20) {
        assert_eq!(lookup_register(register), None);
    }
}

#[test]
fn write_of_5_to_register_0x10_sets_octave_and_is_read_back() {
    let mut synth_engine = SynthEngine::new();
    let mut illumination_engine = IlluminationEngine::new();

    process_command(
        &command(0x10, &[5], false),
        &mut synth_engine,
        &mut illumination_engine,
    );

    assert_eq!(synth_engine.state.octave, 5);
    assert!(synth_engine.state.dirty);

    let (data, size) = build_response(0x10, &synth_engine, &illumination_engine).unwrap();

    assert_eq!(size, 14);
    assert_eq!(data[0], 5);
    assert_eq!(data, [5, 0, 0, 0, 0, 0, 0, 0, 0, 0, 0, 0, 0, 0, 0, 0, 0, 0, 0, 0]);
}

#[test]
fn write_of_9_to_register_0x10_leaves_octave_unchanged() {
    let mut synth_engine = SynthEngine::new();
    let mut illumination_engine = IlluminationEngine::new();

    process_command(
        &command(0x10, &[9], false),
        &mut synth_engine,
        &mut illumination_engine,
    );

    assert_eq!(synth_engine.state.octave, 4);
    assert!(!synth_engine.state.dirty);
}

#[test]
fn write_to_register_0x20_sets_every_octave_from_1_to_8() {
    for octave in 1..=8u8 {
        let mut synth_engine = SynthEngine::new();
        let mut illumination_engine = IlluminationEngine::new();

        process_command(
            &command(0x20, &[octave], false),
            &mut synth_engine,
            &mut illumination_engine,
        );

        assert_eq!(synth_engine.state.octave, octave);
        assert!(synth_engine.state.dirty);
    }
}

#[test]
fn write_out_of_range_is_ignored() {
    for register in [0x10u8, 0x20] {
        for octave in [0u8, 9, 10, 128, 255] {
            let mut synth_engine = SynthEngine::new();
            let mut illumination_engine = IlluminationEngine::new();

            process_command(
                &command(register, &[octave], false),
                &mut synth_engine,
                &mut illumination_engine,
            );

            assert_eq!(synth_engine.state.octave, 4);
            assert!(!synth_engine.state.dirty);
        }
    }
}

#[test]
fn write_of_wrong_length_is_ignored() {
    for payload in [&[][..], &[5, 5][..], &[5, 0, 0][..]] {
        let mut synth_engine = SynthEngine::new();
        let mut illumination_engine = IlluminationEngine::new();

        process_command(
            &command(0x10, payload, false),
            &mut synth_engine,
            &mut illumination_engine,
        );

        assert_eq!(synth_engine.state.octave, 4);
        assert!(!synth_engine.state.dirty);
    }
}

#[test]
fn write_to_unknown_register_is_ignored() {
    for register in [0x00u8, 0x0F, 0x11, 0x12, 0x21, 0xFF] {
        let mut synth_engine = SynthEngine::new();
        let mut illumination_engine = IlluminationEngine::new();

        process_command(
            &command(register, &[5], false),
            &mut synth_engine,
            &mut illumination_engine,
        );

        assert_eq!(synth_engine.state.octave, 4);
        assert!(!synth_engine.state.dirty);
    }
}

#[test]
fn response_of_register_0x10_holds_octave_and_notes() {
    let mut synth_engine = SynthEngine::new();
    let illumination_engine = IlluminationEngine::new();
    synth_engine.set_octave(2);
    synth_engine.state.note_index_state[12] = NoteState::Pressed;
    synth_engine.state.note_index_state[13] = NoteState::Sustain;
    synth_engine.state.note_index_state[23] = NoteState::Release;
    synth_engine.state.note_index_state[24] = NoteState::Sustain;
    synth_engine.state.note_index_state[25] = NoteState::Pressed;

    let (data, size) = build_response(0x10, &synth_engine, &illumination_engine).unwrap();

    assert_eq!(size, 14);
    assert_eq!(data, [2, 1, 2, 0, 0, 0, 0, 0, 0, 0, 0, 0, 3, 2, 0, 0, 0, 0, 0, 0]);
}

#[test]
fn response_of_register_0x20_holds_the_octave() {
    let mut synth_engine = SynthEngine::new();
    let illumination_engine = IlluminationEngine::new();
    synth_engine.state.note_index_state[36] = NoteState::Sustain;

    let (data, size) = build_response(0x20, &synth_engine, &illumination_engine).unwrap();

    assert_eq!(size, 1);
    assert_eq!(data, [4, 0, 0, 0, 0, 0, 0, 0, 0, 0, 0, 0, 0, 0, 0, 0, 0, 0, 0, 0]);
}

#[test]
fn unknown_register_has_no_response() {
    let synth_engine = SynthEngine::new();
    let illumination_engine = IlluminationEngine::new();

    for register in [0x00u8, 0x0F, 0x11, 0x12, 0x1F, 0x21, 0xFF] {
        assert!(build_response(register, &synth_engine, &illumination_engine).is_none());
    }
}

#[test]
fn written_octave_travels_over_the_bus_and_back() {
    let mut status = BusStatus::new();
    let mut synth_engine = SynthEngine::new();
    let mut illumination_engine = IlluminationEngine::new();

    status.addr(false);
    assert!(status.write_data(0x20));
    assert!(status.write_data(6));
    status.stop();

    let command = status.process().unwrap();
    process_command(&command, &mut synth_engine, &mut illumination_engine);
    assert_eq!(synth_engine.state.octave, 6);

    status.addr(false);
    assert!(status.write_data(0x20));
    let (data, size) = build_response(0x20, &synth_engine, &illumination_engine).unwrap();
    status.provide_data(0x20, &data, size);
    status.addr(true);

    assert_eq!(status.read_data(), 6);
    assert_eq!(status.read_data(), 0xFF);
}

#[test]
fn response_for_a_register_no_longer_active_is_not_served() {
    let mut status = BusStatus::new();
    let synth_engine = SynthEngine::new();
    let illumination_engine = IlluminationEngine::new();

    status.addr(false);
    assert!(status.write_data(0x10));
    status.stop();
    let (data, size) = build_response(0x20, &synth_engine, &illumination_engine).unwrap();
    status.provide_data(0x20, &data, size);
    status.addr(true);

    assert_eq!(status.read_data(), 0xFF);
}
