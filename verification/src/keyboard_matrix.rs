//! The key matrix: five rows and five columns with 21 keys at their
//! crossings.
//!
//! Driving the rows and reading the columns is left to the caller, who
//! owns the pins. The matrix maps what was read at the crossings onto the
//! keys and debounces it.

use crate::keyboard_state::{KeyboardState, NUM_KEYS};
use vstd::prelude::*;

verus! {

/// Microseconds a row is given to settle before the next one is driven.
pub const SETTLE_DELAY_US: u16 = 1;

/// Number of rows, A to E.
pub const NUM_ROWS: usize = 5;

/// Number of columns, M to Q.
pub const NUM_COLUMNS: usize = 5;

/// For each key the row it sits on: 0 for A up to 4 for E.
pub const KEY_ROW: [u8; 21] = [0, 0, 0, 0, 1, 1, 1, 1, 4, 4, 3, 2, 2, 2, 2, 3, 3, 3, 4, 4, 4];

/// For each key the column it sits on: 0 for M up to 4 for Q.
pub const KEY_COLUMN: [u8; 21] = [3, 2, 1, 0, 0, 1, 2, 3, 2, 0, 2, 1, 2, 3, 0, 0, 3, 1, 1, 3, 4];

/// What was read at the crossing of key `key`.
pub open spec fn key_reading(readings: Seq<[bool; 5]>, key: int) -> bool {
    readings[KEY_ROW[key] as int]@[KEY_COLUMN[key] as int]
}

/// What was read at the crossings of the 21 keys, key by key.
pub open spec fn crossings(readings: Seq<[bool; 5]>) -> Seq<bool> {
    Seq::new(NUM_KEYS as nat, |key: int| key_reading(readings, key))
}

/// No two keys share a crossing, and every key sits on a row and a column
/// of the matrix.
pub proof fn lemma_crossings_are_distinct(a: int, b: int)
    requires
        0 <= a < NUM_KEYS,
        0 <= b < NUM_KEYS,
    ensures
        KEY_ROW[a] < NUM_ROWS,
        KEY_COLUMN[a] < NUM_COLUMNS,
        a != b ==> KEY_ROW[a] != KEY_ROW[b] || KEY_COLUMN[a] != KEY_COLUMN[b],
{
}

/// The key matrix with its pins and the debounced state of its keys.
pub struct KeyboardMatrix<ROWA, ROWB, ROWC, ROWD, ROWE, COLM, COLN, COLO, COLP, COLQ> {
    pub row_a: ROWA,
    pub row_b: ROWB,
    pub row_c: ROWC,
    pub row_d: ROWD,
    pub row_e: ROWE,
    pub col_n: COLN,
    pub col_m: COLM,
    pub col_o: COLO,
    pub col_p: COLP,
    pub col_q: COLQ,
    keyboard_state: KeyboardState,
}

impl<ROWA, ROWB, ROWC, ROWD, ROWE, COLM, COLN, COLO, COLP, COLQ> KeyboardMatrix<
    ROWA,
    ROWB,
    ROWC,
    ROWD,
    ROWE,
    COLM,
    COLN,
    COLO,
    COLP,
    COLQ,
> {
    /// The debounced state the last scan left.
    pub closed spec fn state(&self) -> KeyboardState {
        self.keyboard_state
    }

    /// A matrix on the given pins with all keys up.
    pub fn new(
        row_a: ROWA,
        row_b: ROWB,
        row_c: ROWC,
        row_d: ROWD,
        row_e: ROWE,
        col_n: COLN,
        col_m: COLM,
        col_o: COLO,
        col_p: COLP,
        col_q: COLQ,
    ) -> (matrix: Self)
        ensures
            forall|i: int| 0 <= i < NUM_KEYS ==> !(#[trigger] matrix.state().state@[i]),
            forall|i: int|
                0 <= i < NUM_KEYS ==> #[trigger] matrix.state().debounce_counter@[i] == 0,
            forall|i: int| 0 <= i < NUM_KEYS ==> !(#[trigger] matrix.state().pressed@[i]),
            forall|i: int| 0 <= i < NUM_KEYS ==> !(#[trigger] matrix.state().released@[i]),
            matrix.state().depressed_count == 0,
            matrix.state().pressed_count == 0,
            matrix.state().released_count == 0,
    {
        Self {
            row_a,
            row_b,
            row_c,
            row_d,
            row_e,
            col_n,
            col_m,
            col_o,
            col_p,
            col_q,
            keyboard_state: KeyboardState::default(),
        }
    }

    /// The debounced state the last scan left.
    pub fn keyboard_state(&self) -> (state: KeyboardState)
        ensures
            state == self.state(),
    {
        self.keyboard_state
    }

    /// Takes one scan of the crossings, row by row and in each row column
    /// by column, and returns the debounced state that follows from it.
    pub fn scan(&mut self, readings: &[[bool; 5]; 5]) -> (state: KeyboardState)
        ensures
            state == final(self).state(),
            KeyboardState::follows(old(self).state(), crossings(readings@), state),
    {
        let mut keystate: [bool; 21] = [false; 21];

        let mut key: usize = 0;
        while key < 21
            invariant
                key <= 21,
                forall|k: int|
                    0 <= k < key ==> #[trigger] keystate@[k] == key_reading(readings@, k),
            decreases 21 - key,
        {
            keystate[key] = readings[KEY_ROW[key] as usize][KEY_COLUMN[key] as usize];
            key += 1;
        }

        assert(keystate@ =~= crossings(readings@));
        self.keyboard_state = self.keyboard_state.build_new(keystate);

        self.keyboard_state
    }
}

} // verus!
