//! Note and octave tracking.
//!
//! The keyboard plays one octave at a time. Keys 0 to 7 select the octave,
//! keys 8 to 20 play the thirteen notes from the octave's C up to the next
//! C. Every note of the instrument, from C1 to C9, has a small life cycle
//! (`Off`, `Pressed`, `Sustain`, `Release`) that each update advances.

use crate::keyboard_state::KeyboardState;
use vstd::prelude::*;

verus! {

/// MIDI number of note index 0.
pub const MIDI_NOTE_OFFSET: u8 = 24;

/// Eight octaves of twelve notes, and the C that closes the last octave.
pub const NUM_NOTES: usize = 97;

/// Notes a single octave of keys can play: twelve and the next C.
pub const NOTES_PER_VIEW: usize = 13;

/// State of a note.
#[derive(Clone, Copy, PartialEq, Eq, Structural, Debug)]
pub enum NoteState {
    Off,
    Pressed,
    Sustain,
    Release,
}

impl NoteState {
    /// The number a state is reported as on the bus.
    pub open spec fn code(self) -> u8 {
        match self {
            NoteState::Off => 0,
            NoteState::Pressed => 1,
            NoteState::Sustain => 2,
            NoteState::Release => 3,
        }
    }

    /// The state after an update that finds the note's key down.
    pub open spec fn activated(self) -> NoteState {
        match self {
            NoteState::Off => NoteState::Pressed,
            NoteState::Pressed => NoteState::Sustain,
            NoteState::Sustain => NoteState::Sustain,
            NoteState::Release => NoteState::Pressed,
        }
    }

    /// The state after an update that finds the note's key up.
    pub open spec fn deactivated(self) -> NoteState {
        match self {
            NoteState::Off => NoteState::Off,
            NoteState::Pressed => NoteState::Release,
            NoteState::Sustain => NoteState::Release,
            NoteState::Release => NoteState::Off,
        }
    }

    pub fn to_int(&self) -> (code: u8)
        ensures
            code == self.code(),
    {
        match self {
            NoteState::Off => 0,
            NoteState::Pressed => 1,
            NoteState::Sustain => 2,
            NoteState::Release => 3,
        }
    }

    /// Whether the note sounds or was just let go.
    pub fn is_active(&self) -> (active: bool)
        ensures
            active == (*self != NoteState::Off),
    {
        match self {
            NoteState::Off => false,
            _ => true,
        }
    }

    pub fn activate(&self) -> (next: NoteState)
        ensures
            next == self.activated(),
    {
        match self {
            NoteState::Off => NoteState::Pressed,
            NoteState::Pressed => NoteState::Sustain,
            NoteState::Sustain => NoteState::Sustain,
            NoteState::Release => NoteState::Pressed,
        }
    }

    pub fn deactivate(&self) -> (next: NoteState)
        ensures
            next == self.deactivated(),
    {
        match self {
            NoteState::Off => NoteState::Off,
            NoteState::Pressed => NoteState::Release,
            NoteState::Sustain => NoteState::Release,
            NoteState::Release => NoteState::Off,
        }
    }
}

/// Offset within the octave of the note that key `idx` plays; 0 for a key
/// that plays no note.
pub open spec fn key_note_offset(idx: u8) -> u8 {
    if idx == 11 {
        3
    } else if idx == 12 {
        1
    } else if idx == 13 {
        0
    } else if idx == 14 {
        2
    } else if idx == 10 {
        6
    } else if idx == 15 {
        4
    } else if idx == 16 {
        5
    } else if idx == 17 {
        7
    } else if idx == 8 {
        10
    } else if idx == 9 {
        8
    } else if idx == 18 {
        9
    } else if idx == 19 {
        11
    } else if idx == 20 {
        12
    } else {
        0
    }
}

/// The key that plays the note at `note_offset` within the octave; 0 for an
/// offset beyond the thirteen notes.
pub open spec fn note_offset_key(note_offset: u8) -> u8 {
    if note_offset == 3 {
        11
    } else if note_offset == 1 {
        12
    } else if note_offset == 0 {
        13
    } else if note_offset == 2 {
        14
    } else if note_offset == 6 {
        10
    } else if note_offset == 4 {
        15
    } else if note_offset == 5 {
        16
    } else if note_offset == 7 {
        17
    } else if note_offset == 10 {
        8
    } else if note_offset == 8 {
        9
    } else if note_offset == 9 {
        18
    } else if note_offset == 11 {
        19
    } else if note_offset == 12 {
        20
    } else {
        0
    }
}

/// The note keys 8 to 20 and the note offsets 0 to 12 correspond one to one.
pub proof fn lemma_keys_and_offsets_correspond(idx: u8, note_offset: u8)
    ensures
        8 <= idx <= 20 ==> key_note_offset(idx) <= 12 && note_offset_key(key_note_offset(idx))
            == idx,
        note_offset <= 12 ==> 8 <= note_offset_key(note_offset) <= 20 && key_note_offset(
            note_offset_key(note_offset),
        ) == note_offset,
{
}

/// Whether `octave` is one of the eight octaves of the instrument.
pub open spec fn valid_octave(octave: u8) -> bool {
    1 <= octave <= 8
}

/// Note index of the C that opens `octave`.
pub open spec fn octave_base(octave: u8) -> int {
    (octave - 1) * 12
}

/// The octave after the first `n` octave keys were looked at: the one of the
/// highest key among them that was just pressed, else `octave`.
pub open spec fn selected_octave(octave: u8, pressed: Seq<bool>, n: nat) -> u8
    decreases n,
{
    if n == 0 {
        octave
    } else if pressed[n - 1] {
        n as u8
    } else {
        selected_octave(octave, pressed, (n - 1) as nat)
    }
}

/// Whether one of the first `n` octave keys was just pressed and asks for
/// another octave than `octave`.
pub open spec fn octave_key_changes(octave: u8, pressed: Seq<bool>, n: int) -> bool {
    exists|j: int| 0 <= j < n && #[trigger] pressed[j] && j + 1 != octave
}

/// State of note `n` once the notes of all octaves but `octave` were let
/// go. The C that closes the last octave belongs to no octave and is left
/// alone.
pub open spec fn muted(notes: Seq<NoteState>, octave: u8, n: int) -> NoteState {
    if n < 96 && n / 12 + 1 != octave {
        notes[n].deactivated()
    } else {
        notes[n]
    }
}

/// Whether letting go the notes of the other octaves changes a note below `n`.
pub open spec fn mute_changes(notes: Seq<NoteState>, octave: u8, n: int) -> bool {
    exists|m: int| 0 <= m < n && #[trigger] muted(notes, octave, m) != notes[m]
}

/// State of note `n` after an update in `octave` that finds the keys in
/// `keys`: the other octaves are let go first, then each of the thirteen
/// notes in view follows its key.
pub open spec fn played(notes: Seq<NoteState>, octave: u8, keys: Seq<bool>, n: int) -> NoteState {
    let m = muted(notes, octave, n);
    let base = octave_base(octave);
    if base <= n <= base + 12 {
        if keys[note_offset_key((n - base) as u8) as int] {
            m.activated()
        } else {
            m.deactivated()
        }
    } else {
        m
    }
}

/// Note index of the note that key `idx` plays in `octave`.
pub open spec fn key_note(octave: u8, idx: int) -> int {
    octave_base(octave) + key_note_offset(idx as u8)
}

/// Whether following key `idx` changes the state its note has after the
/// other octaves were let go.
pub open spec fn key_changes_note(
    notes: Seq<NoteState>,
    octave: u8,
    keys: Seq<bool>,
    idx: int,
) -> bool {
    played(notes, octave, keys, key_note(octave, idx)) != muted(
        notes,
        octave,
        key_note(octave, idx),
    )
}

/// Whether following the keys changes the note of one of the keys from 8 up to `k`.
pub open spec fn play_changes(notes: Seq<NoteState>, octave: u8, keys: Seq<bool>, k: int) -> bool {
    exists|i: int| 8 <= i < k && #[trigger] key_changes_note(notes, octave, keys, i)
}

/// Number reported for the note `i` steps above the C of `octave`: the code
/// of its state, and 0 for a step that leaves the instrument's range.
pub open spec fn octave_note_code(notes: Seq<NoteState>, octave: u8, i: int) -> u8 {
    if octave >= 1 && octave_base(octave) + i < NUM_NOTES {
        notes[octave_base(octave) + i].code()
    } else {
        0
    }
}

/// Octave in view and the state of every note of the instrument.
pub struct SynthState {
    /// The octave in view, 1 to 8.
    pub octave: u8,
    /// State of each note from C1 to C9.
    pub note_index_state: [NoteState; 97],
    /// Whether the last update or command changed anything.
    pub dirty: bool,
}

impl SynthState {
    /// Octave 4 in view, every note off.
    pub fn new() -> (state: Self)
        ensures
            state.octave == 4,
            !state.dirty,
            forall|n: int| 0 <= n < NUM_NOTES ==> #[trigger] state.note_index_state@[n] == NoteState::Off,
    {
        Self { octave: 4, note_index_state: [NoteState::Off; 97], dirty: false }
    }

    pub fn index_to_note_offset(&self, idx: u8) -> (note_offset: u8)
        ensures
            note_offset == key_note_offset(idx),
    {
        match idx {
            11 => 3,
            12 => 1,
            13 => 0,
            14 => 2,
            10 => 6,
            15 => 4,
            16 => 5,
            17 => 7,
            8 => 10,
            9 => 8,
            18 => 9,
            19 => 11,
            20 => 12,
            _ => 0,
        }
    }

    pub fn note_offset_to_index(&self, note_offset: u8) -> (idx: u8)
        ensures
            idx == note_offset_key(note_offset),
    {
        match note_offset {
            3 => 11,
            1 => 12,
            0 => 13,
            2 => 14,
            6 => 10,
            4 => 15,
            5 => 16,
            7 => 17,
            10 => 8,
            8 => 9,
            9 => 18,
            11 => 19,
            12 => 20,
            _ => 0,
        }
    }

    /// Note index of the note at `note_offset` above the C of `octave`.
    pub fn octave_note_offset_to_note_index(octave: u8, note_offset: u8) -> (note_index: u8)
        requires
            octave >= 1,
            octave_base(octave) + note_offset <= u8::MAX,
        ensures
            note_index == octave_base(octave) + note_offset,
    {
        let octave_offset: u8 = (octave - 1) * 12;

        octave_offset + note_offset
    }

    /// Note index of the note at `note_offset` above the C of the octave in view.
    pub fn note_offset_to_note_index(&self, note_offset: u8) -> (note_index: u8)
        requires
            self.octave >= 1,
            octave_base(self.octave) + note_offset <= u8::MAX,
        ensures
            note_index == octave_base(self.octave) + note_offset,
    {
        SynthState::octave_note_offset_to_note_index(self.octave, note_offset)
    }

    /// Distance of `note_index` above the C of the octave in view.
    pub fn note_index_to_note_offset(&self, note_index: u8) -> (note_offset: u8)
        requires
            self.octave >= 1,
            octave_base(self.octave) <= note_index,
        ensures
            note_offset == note_index - octave_base(self.octave),
    {
        let octave_offset: u8 = (self.octave - 1) * 12;

        note_index - octave_offset
    }

    /// Note index of the note that key `idx` plays in the octave in view.
    pub fn index_to_note_index(&self, idx: u8) -> (note_index: u8)
        requires
            self.octave >= 1,
            octave_base(self.octave) + key_note_offset(idx) <= u8::MAX,
        ensures
            note_index == octave_base(self.octave) + key_note_offset(idx),
    {
        let note_offset = self.index_to_note_offset(idx);
        let note_index = self.note_offset_to_note_index(note_offset);

        note_index
    }

    pub fn note_index_to_midi(&self, note_index: u8) -> (midi_note: u8)
        requires
            MIDI_NOTE_OFFSET + (self.octave + 1) * 12 + note_index <= u8::MAX,
        ensures
            midi_note == MIDI_NOTE_OFFSET + (self.octave + 1) * 12 + note_index,
    {
        let octave_offset: u8 = (self.octave + 1) * 12;
        let midi_note: u8 = MIDI_NOTE_OFFSET + octave_offset + note_index;

        midi_note
    }

    /// Advances note `note_index` as one whose key is down. Returns whether
    /// its state changed, and marks the state dirty if so.
    pub fn activate_note_index(&mut self, note_index: u8) -> (changed: bool)
        requires
            note_index < NUM_NOTES,
        ensures
            final(self).note_index_state@ == old(self).note_index_state@.update(
                note_index as int,
                old(self).note_index_state@[note_index as int].activated(),
            ),
            changed == (old(self).note_index_state@[note_index as int].activated() != old(
                self,
            ).note_index_state@[note_index as int]),
            final(self).dirty == (old(self).dirty || changed),
            final(self).octave == old(self).octave,
    {
        let note_index = note_index as usize;
        let new_state = self.note_index_state[note_index].activate();
        if self.note_index_state[note_index] != new_state {
            self.note_index_state[note_index] = new_state;
            self.dirty = true;

            true
        } else {
            assert(self.note_index_state@ =~= old(self).note_index_state@.update(
                note_index as int,
                new_state,
            ));
            false
        }
    }

    /// Advances note `note_index` as one whose key is up. Returns whether
    /// its state changed, and marks the state dirty if so.
    pub fn deactivate_note_index(&mut self, note_index: u8) -> (changed: bool)
        requires
            note_index < NUM_NOTES,
        ensures
            final(self).note_index_state@ == old(self).note_index_state@.update(
                note_index as int,
                old(self).note_index_state@[note_index as int].deactivated(),
            ),
            changed == (old(self).note_index_state@[note_index as int].deactivated() != old(
                self,
            ).note_index_state@[note_index as int]),
            final(self).dirty == (old(self).dirty || changed),
            final(self).octave == old(self).octave,
    {
        let note_index = note_index as usize;
        let new_state = self.note_index_state[note_index].deactivate();
        if self.note_index_state[note_index] != new_state {
            self.note_index_state[note_index] = new_state;
            self.dirty = true;

            true
        } else {
            assert(self.note_index_state@ =~= old(self).note_index_state@.update(
                note_index as int,
                new_state,
            ));
            false
        }
    }
}

/// The synth engine: it owns the note state and follows the keyboard.
pub struct SynthEngine {
    pub state: SynthState,
}

impl SynthEngine {
    pub fn new() -> (engine: Self)
        ensures
            engine.state.octave == 4,
            !engine.state.dirty,
            forall|n: int|
                0 <= n < NUM_NOTES ==> #[trigger] engine.state.note_index_state@[n]
                    == NoteState::Off,
    {
        Self { state: SynthState::new() }
    }

    /// Puts `octave` in view and marks the state dirty. The notes stay as they are.
    pub fn set_octave(&mut self, octave: u8)
        ensures
            final(self).state.octave == octave,
            final(self).state.dirty,
            final(self).state.note_index_state == old(self).state.note_index_state,
    {
        self.state.octave = octave;
        self.state.dirty = true;
    }

    /// The octave in view.
    pub fn get_octave(&self) -> (octave: u8)
        ensures
            octave == self.state.octave,
    {
        self.state.octave
    }

    /// The octave in view and the codes of its thirteen notes, from its C
    /// up to the next C.
    pub fn get_octave_notes(&self) -> (result: (u8, [u8; 13]))
        ensures
            result.0 == self.state.octave,
            forall|i: int|
                0 <= i < NOTES_PER_VIEW ==> #[trigger] result.1@[i] == octave_note_code(
                    self.state.note_index_state@,
                    self.state.octave,
                    i,
                ),
    {
        let octave = self.state.octave;
        let mut notes: [u8; 13] = [0; 13];
        if octave >= 1 {
            let base: usize = (octave as usize - 1) * 12;
            let mut i: usize = 0;
            while i < 13
                invariant
                    i <= 13,
                    octave == self.state.octave,
                    octave >= 1,
                    base == octave_base(octave),
                    forall|j: int|
                        0 <= j < i ==> #[trigger] notes@[j] == octave_note_code(
                            self.state.note_index_state@,
                            octave,
                            j,
                        ),
                    forall|j: int| i <= j < 13 ==> #[trigger] notes@[j] == 0,
                decreases 13 - i,
            {
                if base + i < NUM_NOTES {
                    notes[i] = self.state.note_index_state[base + i].to_int();
                }
                i += 1;
            }
        }
        (octave, notes)
    }

    /// Tells whether [`SynthEngine::update`] may be called with this
    /// keyboard state: the octave in view after the octave keys were read
    /// is one of the eight octaves.
    pub fn can_update(&self, keyboard_state: &KeyboardState) -> (valid: bool)
        ensures
            valid == valid_octave(
                selected_octave(self.state.octave, keyboard_state.pressed@, 8),
            ),
    {
        let mut octave = self.state.octave;
        let mut i: usize = 0;
        while i < 8
            invariant
                i <= 8,
                octave == selected_octave(self.state.octave, keyboard_state.pressed@, i as nat),
            decreases 8 - i,
        {
            if keyboard_state.pressed[i] {
                octave = i as u8 + 1;
            }
            i += 1;
        }
        1 <= octave && octave <= 8
    }

    /// Follows the keyboard for one cycle.
    ///
    /// An octave key that was just pressed puts its octave in view (the
    /// highest one wins). The notes of all other octaves are let go. Each
    /// of the thirteen notes in view then advances with its key: down
    /// activates, up deactivates. `dirty` tells whether anything changed.
    ///
    /// The octave in view after the octave keys were read has to be one of
    /// the eight octaves.
    pub fn update(&mut self, keyboard_state: &KeyboardState)
        requires
            valid_octave(selected_octave(old(self).state.octave, keyboard_state.pressed@, 8)),
        ensures
            final(self).state.octave == selected_octave(
                old(self).state.octave,
                keyboard_state.pressed@,
                8,
            ),
            forall|n: int|
                0 <= n < NUM_NOTES ==> #[trigger] final(self).state.note_index_state@[n] == played(
                    old(self).state.note_index_state@,
                    final(self).state.octave,
                    keyboard_state.state@,
                    n,
                ),
            final(self).state.dirty == (octave_key_changes(
                old(self).state.octave,
                keyboard_state.pressed@,
                8,
            ) || mute_changes(
                old(self).state.note_index_state@,
                final(self).state.octave,
                NUM_NOTES as int,
            ) || play_changes(
                old(self).state.note_index_state@,
                final(self).state.octave,
                keyboard_state.state@,
                21,
            )),
    {
        let ghost old_octave = self.state.octave;
        let ghost old_notes = self.state.note_index_state@;
        let ghost pressed = keyboard_state.pressed@;
        let ghost keys = keyboard_state.state@;
        self.state.dirty = false;

        let mut i: usize = 0;
        while i < 8
            invariant
                i <= 8,
                pressed == keyboard_state.pressed@,
                self.state.octave == selected_octave(old_octave, pressed, i as nat),
                self.state.dirty == octave_key_changes(old_octave, pressed, i as int),
                self.state.octave != old_octave ==> self.state.dirty,
                self.state.note_index_state@ == old_notes,
            decreases 8 - i,
        {
            if keyboard_state.pressed[i] && self.state.octave != i as u8 + 1 {
                self.state.octave = i as u8 + 1;

                self.state.dirty = true;
            }
            i += 1;
        }

        let ghost cur = self.state.octave;
        let ghost dirty_a = self.state.dirty;

        let mut octave: u8 = 1;
        while octave < 9
            invariant
                1 <= octave <= 9,
                self.state.octave == cur,
                old_notes.len() == NUM_NOTES,
                forall|n: int|
                    0 <= n < NUM_NOTES ==> #[trigger] self.state.note_index_state@[n] == (if n
                        < octave_base(octave) {
                        muted(old_notes, cur, n)
                    } else {
                        old_notes[n]
                    }),
                self.state.dirty == (dirty_a || mute_changes(old_notes, cur, octave_base(octave))),
            decreases 9 - octave,
        {
            if octave != self.state.octave {
                let mut i: u8 = 0;
                while i < 12
                    invariant
                        i <= 12,
                        1 <= octave < 9,
                        octave != cur,
                        self.state.octave == cur,
                        old_notes.len() == NUM_NOTES,
                        forall|n: int|
                            0 <= n < NUM_NOTES ==> #[trigger] self.state.note_index_state@[n] == (
                            if n < octave_base(octave) + i {
                                muted(old_notes, cur, n)
                            } else {
                                old_notes[n]
                            }),
                        self.state.dirty == (dirty_a || mute_changes(
                            old_notes,
                            cur,
                            octave_base(octave) + i,
                        )),
                    decreases 12 - i,
                {
                    let note_index = SynthState::octave_note_offset_to_note_index(octave, i);
                    let changed = self.state.deactivate_note_index(note_index);
                    self.state.dirty = changed || self.state.dirty;
                    proof {
                        let n = note_index as int;
                        assert(n / 12 + 1 == octave);
                        assert(muted(old_notes, cur, n) == old_notes[n].deactivated());
                        if mute_changes(old_notes, cur, n + 1) && !mute_changes(old_notes, cur, n) {
                            let m = choose|m: int|
                                0 <= m < n + 1 && #[trigger] muted(old_notes, cur, m)
                                    != old_notes[m];
                            assert(m == n);
                        }
                    }
                    i += 1;
                }
            } else {
                proof {
                    let lo = octave_base(octave);
                    assert forall|n: int| lo <= n < lo + 12 implies muted(old_notes, cur, n)
                        == old_notes[n] by {
                        assert(n / 12 + 1 == octave);
                    }
                    if mute_changes(old_notes, cur, lo + 12) && !mute_changes(old_notes, cur, lo) {
                        let m = choose|m: int|
                            0 <= m < lo + 12 && #[trigger] muted(old_notes, cur, m)
                                != old_notes[m];
                        assert(lo <= m);
                    }
                }
            }
            octave += 1;
        }

        let ghost dirty_b = self.state.dirty;
        proof {
            assert(muted(old_notes, cur, 96) == old_notes[96]);
            if mute_changes(old_notes, cur, 97) && !mute_changes(old_notes, cur, 96) {
                let m = choose|m: int|
                    0 <= m < 97 && #[trigger] muted(old_notes, cur, m) != old_notes[m];
                assert(m == 96);
            }
        }

        let mut i: u8 = 8;
        while i < 21
            invariant
                8 <= i <= 21,
                valid_octave(cur),
                self.state.octave == cur,
                keys == keyboard_state.state@,
                old_notes.len() == NUM_NOTES,
                forall|n: int|
                    0 <= n < NUM_NOTES ==> #[trigger] self.state.note_index_state@[n] == (
                    if octave_base(cur) <= n <= octave_base(cur) + 12 && note_offset_key(
                        (n - octave_base(cur)) as u8,
                    ) < i {
                        played(old_notes, cur, keys, n)
                    } else {
                        muted(old_notes, cur, n)
                    }),
                self.state.dirty == (dirty_b || play_changes(old_notes, cur, keys, i as int)),
            decreases 21 - i,
        {
            let note_index = self.state.index_to_note_index(i);
            let changed = if keyboard_state.state[i as usize] {
                self.state.activate_note_index(note_index)
            } else {
                self.state.deactivate_note_index(note_index)
            };
            self.state.dirty = changed || self.state.dirty;
            proof {
                lemma_keys_and_offsets_correspond(i, 0);
                assert(note_index as int == key_note(cur, i as int));
                if play_changes(old_notes, cur, keys, i + 1) && !play_changes(
                    old_notes,
                    cur,
                    keys,
                    i as int,
                ) {
                    let k = choose|k: int|
                        8 <= k < i + 1 && #[trigger] key_changes_note(old_notes, cur, keys, k);
                    assert(k == i);
                }
                if changed {
                    assert(key_changes_note(old_notes, cur, keys, i as int));
                }
            }
            i += 1;
        }
    }
}

} // verus!
