//! Register dispatch: what a finalized command does to the synth engine, and
//! what a read of each register is answered with.

use crate::comms::{BusCommand, Command, BUFFER_SIZE};
use crate::illuminator::IlluminationEngine;
use crate::synth_engine::{octave_note_code, SynthEngine, NOTES_PER_VIEW};
use vstd::prelude::*;

verus! {

/// Register of the active octave and the notes in view.
pub const REGISTER_OCTAVE_NOTES: u8 = 0x10;

/// Register of the active octave alone.
pub const REGISTER_OCTAVE: u8 = 0x20;

/// Lowest octave a write may select.
pub const OCTAVE_MIN: u8 = 1;

/// Highest octave a write may select.
pub const OCTAVE_MAX: u8 = 8;

/// What a write to a register does.
#[derive(Clone, Copy, PartialEq, Eq, Structural, Debug)]
pub enum WriteHandler {
    /// One byte, 1 to 8: puts that octave in view.
    SetOctave,
}

/// What a read of a register is answered with.
#[derive(Clone, Copy, PartialEq, Eq, Structural, Debug)]
pub enum ReadHandler {
    /// Fourteen bytes: the octave in view and the codes of its thirteen notes.
    OctaveAndNotes,
    /// One byte: the octave in view.
    Octave,
}

/// The two handlers of a register.
#[derive(Clone, Copy, PartialEq, Eq, Structural, Debug)]
pub struct RegisterEntry {
    pub write: Option<WriteHandler>,
    pub read: Option<ReadHandler>,
}

/// The register table.
pub open spec fn register_entry(register: u8) -> Option<RegisterEntry> {
    if register == REGISTER_OCTAVE_NOTES {
        Some(
            RegisterEntry {
                write: Some(WriteHandler::SetOctave),
                read: Some(ReadHandler::OctaveAndNotes),
            },
        )
    } else if register == REGISTER_OCTAVE {
        Some(RegisterEntry { write: Some(WriteHandler::SetOctave), read: Some(ReadHandler::Octave) })
    } else {
        None
    }
}

/// The handler a write to `register` goes to.
pub open spec fn write_handler(register: u8) -> Option<WriteHandler> {
    match register_entry(register) {
        Some(entry) => entry.write,
        None => None,
    }
}

/// The handler a read of `register` goes to.
pub open spec fn read_handler(register: u8) -> Option<ReadHandler> {
    match register_entry(register) {
        Some(entry) => entry.read,
        None => None,
    }
}

/// The octave `command` selects: its register takes octave writes, and its
/// payload is a single byte from 1 to 8. Any other command selects none.
pub open spec fn commanded_octave(command: Command) -> Option<u8> {
    if write_handler(command.register) == Some(WriteHandler::SetOctave) && command.data_size == 1
        && OCTAVE_MIN <= command.data[0] <= OCTAVE_MAX {
        Some(command.data[0])
    } else {
        None
    }
}

/// Number of bytes a read handler answers with.
pub open spec fn response_size(handler: ReadHandler) -> nat {
    match handler {
        ReadHandler::OctaveAndNotes => 1 + NOTES_PER_VIEW as nat,
        ReadHandler::Octave => 1,
    }
}

/// Byte `i` of the buffer a read handler fills: the octave first, the note
/// codes after it where the handler reports them, zero in the rest.
pub open spec fn response_byte(handler: ReadHandler, synth_engine: &SynthEngine, i: int) -> u8 {
    if i == 0 {
        synth_engine.state.octave
    } else if handler == ReadHandler::OctaveAndNotes && i <= NOTES_PER_VIEW {
        octave_note_code(synth_engine.state.note_index_state@, synth_engine.state.octave, i - 1)
    } else {
        0
    }
}

/// The buffer a read handler fills.
pub open spec fn response_data(handler: ReadHandler, synth_engine: &SynthEngine) -> Seq<u8> {
    Seq::new(BUFFER_SIZE as nat, |i: int| response_byte(handler, synth_engine, i))
}

/// Looks `register` up in the register table.
pub fn lookup_register(register: u8) -> (entry: Option<RegisterEntry>)
    ensures
        entry == register_entry(register),
{
    match register {
        0x10 => Some(
            RegisterEntry {
                write: Some(WriteHandler::SetOctave),
                read: Some(ReadHandler::OctaveAndNotes),
            },
        ),
        0x20 => Some(
            RegisterEntry { write: Some(WriteHandler::SetOctave), read: Some(ReadHandler::Octave) },
        ),
        _ => None,
    }
}

/// The register the poll cycle answers for: the one of the command taken in
/// this cycle, and the one of the cycle before where none was taken.
pub fn polled_register(current: u8, command: &Option<BusCommand>) -> (register: u8)
    ensures
        register == (match *command {
            Some(c) => c.register,
            None => current,
        }),
{
    match command {
        Some(c) => c.register,
        None => current,
    }
}

/// Applies a finalized command.
///
/// A command for a register with a write handler is applied if its payload
/// has the shape the handler asks for. Every other command is ignored:
/// nothing changes and nothing is reported.
pub fn process_command(
    command: &BusCommand,
    synth_engine: &mut SynthEngine,
    illumination_engine: &mut IlluminationEngine,
)
    ensures
        match commanded_octave(command@) {
            Some(octave) => {
                &&& final(synth_engine).state.octave == octave
                &&& final(synth_engine).state.dirty
                &&& final(synth_engine).state.note_index_state == old(
                    synth_engine,
                ).state.note_index_state
            },
            None => *final(synth_engine) == *old(synth_engine),
        },
        *final(illumination_engine) == *old(illumination_engine),
{
    let handler = match lookup_register(command.register) {
        Some(entry) => entry.write,
        None => None,
    };
    match handler {
        Some(WriteHandler::SetOctave) => {
            if command.data_size == 1 && OCTAVE_MIN <= command.data[0] && command.data[0]
                <= OCTAVE_MAX {
                synth_engine.set_octave(command.data[0])
            }
        },
        None => {},
    }
}

/// Computes the answer to a read of `register` from the present state of
/// the synth engine: the buffer and the number of its bytes that count. A
/// register without a read handler has no answer.
pub fn build_response(
    register: u8,
    synth_engine: &SynthEngine,
    illumination_engine: &IlluminationEngine,
) -> (response: Option<([u8; 20], usize)>)
    ensures
        match read_handler(register) {
            Some(handler) => response matches Some((data, size)) && data@ == response_data(
                handler,
                synth_engine,
            ) && size == response_size(handler),
            None => response is None,
        },
{
    let mut register_data: [u8; 20] = [0; 20];

    let handler = match lookup_register(register) {
        Some(entry) => entry.read,
        None => None,
    };
    match handler {
        Some(ReadHandler::OctaveAndNotes) => {
            let (octave, octave_notes) = synth_engine.get_octave_notes();

            register_data[0] = octave;
            let mut i: usize = 0;
            while i < 13
                invariant
                    i <= 13,
                    register_data@[0] == octave,
                    forall|j: int| 1 <= j <= i ==> #[trigger] register_data@[j] == octave_notes@[j - 1],
                    forall|j: int| i < j < 20 ==> #[trigger] register_data@[j] == 0,
                decreases 13 - i,
            {
                register_data[i + 1] = octave_notes[i];
                i += 1;
            }
            assert(register_data@ =~= response_data(ReadHandler::OctaveAndNotes, synth_engine));

            Some((register_data, 14))
        },
        Some(ReadHandler::Octave) => {
            let octave = synth_engine.get_octave();

            register_data[0] = octave;
            assert(register_data@ =~= response_data(ReadHandler::Octave, synth_engine));

            Some((register_data, 1))
        },
        None => None,
    }
}

/// Every register that takes octave writes can be read, and once a command
/// has put its octave in view the answer to a read of that register opens
/// with that octave.
pub proof fn lemma_written_octave_is_read_back(command: Command, synth_engine: &SynthEngine)
    requires
        commanded_octave(command) == Some(synth_engine.state.octave),
    ensures
        read_handler(command.register) is Some,
        response_data(read_handler(command.register).unwrap(), synth_engine)[0]
            == command.data[0],
        OCTAVE_MIN <= response_data(read_handler(command.register).unwrap(), synth_engine)[0]
            <= OCTAVE_MAX,
        response_size(read_handler(command.register).unwrap()) >= 1,
{
}

} // verus!
