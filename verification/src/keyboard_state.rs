//! Debounced state of the 21 keys.

use vstd::prelude::*;

verus! {

/// Number of keys on the board.
pub const NUM_KEYS: usize = 21;

/// Value a key's debounce counter is loaded with when a change is accepted.
pub const DEBOUNCE_COUNTER: u8 = 100;

/// Debounced key states after one scan, with the edges the scan produced.
#[derive(Clone, Copy, Debug)]
pub struct KeyboardState {
    pub state: [bool; 21],
    pub debounce_counter: [u8; 21],
    pub pressed: [bool; 21],
    pub released: [bool; 21],
    pub depressed_count: u8,
    pub pressed_count: u8,
    pub released_count: u8,
}

/// Number of `true` entries of `s`.
pub open spec fn count_true(s: Seq<bool>) -> nat
    decreases s.len(),
{
    if s.len() == 0 {
        0
    } else {
        count_true(s.drop_last()) + if s.last() {
            1nat
        } else {
            0nat
        }
    }
}

/// A sequence holds at most as many `true` entries as it has entries.
pub proof fn lemma_count_true_bound(s: Seq<bool>)
    ensures
        count_true(s) <= s.len(),
    decreases s.len(),
{
    if s.len() > 0 {
        lemma_count_true_bound(s.drop_last());
    }
}

/// No entry is `true` exactly when the count is zero.
pub proof fn lemma_count_true_zero(s: Seq<bool>)
    ensures
        count_true(s) == 0 <==> forall|i: int| 0 <= i < s.len() ==> !s[i],
    decreases s.len(),
{
    if s.len() > 0 {
        lemma_count_true_zero(s.drop_last());
        if count_true(s) == 0 {
            assert forall|i: int| 0 <= i < s.len() implies !s[i] by {
                if i < s.len() - 1 {
                    assert(s.drop_last()[i] == s[i]);
                }
            }
        } else {
            if !s.last() {
                let i = choose|i: int| 0 <= i < s.drop_last().len() && s.drop_last()[i];
                assert(s[i]);
            }
        }
    }
}

proof fn lemma_count_true_step(s: Seq<bool>, i: int)
    requires
        0 <= i < s.len(),
    ensures
        count_true(s.take(i + 1)) == count_true(s.take(i)) + if s[i] {
            1nat
        } else {
            0nat
        },
{
    assert(s.take(i + 1).drop_last() =~= s.take(i));
}

impl KeyboardState {
    /// Whether the raw reading of key `i` differs from the debounced state
    /// while the key's debounce counter has run out, so that the change is
    /// taken over.
    pub open spec fn accepts_change(&self, new_state: Seq<bool>, i: int) -> bool {
        new_state[i] != self.state@[i] && self.debounce_counter@[i] == 0
    }

    /// Debounced state of key `i` after a scan that read `new_state`.
    pub open spec fn next_key(&self, new_state: Seq<bool>, i: int) -> bool {
        if self.accepts_change(new_state, i) {
            new_state[i]
        } else {
            self.state@[i]
        }
    }

    /// Debounce counter of key `i` after a scan that read `new_state`: an
    /// accepted change reloads it, and every scan counts it down by one
    /// until it reaches zero.
    pub open spec fn next_counter(&self, new_state: Seq<bool>, i: int) -> int {
        if self.accepts_change(new_state, i) {
            DEBOUNCE_COUNTER - 1
        } else if self.debounce_counter@[i] > 0 {
            self.debounce_counter@[i] - 1
        } else {
            0
        }
    }

    /// Whether `next` is the state that follows `before` after a scan that
    /// read `new_state`: each key is debounced, the edges are those between
    /// the two states, and the counts are the numbers of keys held, pressed
    /// and released.
    pub open spec fn follows(
        before: KeyboardState,
        new_state: Seq<bool>,
        next: KeyboardState,
    ) -> bool {
        &&& forall|i: int|
            0 <= i < NUM_KEYS ==> #[trigger] next.state@[i] == before.next_key(new_state, i)
        &&& forall|i: int|
            0 <= i < NUM_KEYS ==> #[trigger] next.debounce_counter@[i] == before.next_counter(
                new_state,
                i,
            )
        &&& forall|i: int|
            0 <= i < NUM_KEYS ==> #[trigger] next.pressed@[i] == (before.next_key(new_state, i)
                && !before.state@[i])
        &&& forall|i: int|
            0 <= i < NUM_KEYS ==> #[trigger] next.released@[i] == (!before.next_key(new_state, i)
                && before.state@[i])
        &&& next.depressed_count == count_true(next.state@)
        &&& next.pressed_count == count_true(next.pressed@)
        &&& next.released_count == count_true(next.released@)
    }

    /// All keys up, all counters at zero, no edges.
    pub fn default() -> (result: Self)
        ensures
            forall|i: int| 0 <= i < NUM_KEYS ==> !(#[trigger] result.state@[i]),
            forall|i: int| 0 <= i < NUM_KEYS ==> #[trigger] result.debounce_counter@[i] == 0,
            forall|i: int| 0 <= i < NUM_KEYS ==> !(#[trigger] result.pressed@[i]),
            forall|i: int| 0 <= i < NUM_KEYS ==> !(#[trigger] result.released@[i]),
            result.depressed_count == 0,
            result.pressed_count == 0,
            result.released_count == 0,
    {
        Self {
            state: [false; 21],
            debounce_counter: [0; 21],
            pressed: [false; 21],
            released: [false; 21],
            depressed_count: 0,
            pressed_count: 0,
            released_count: 0,
        }
    }

    /// The state after a scan that read `new_state` from the matrix.
    pub fn build_new(&self, new_state: [bool; 21]) -> (result: Self)
        ensures
            KeyboardState::follows(*self, new_state@, result),
    {
        let mut debounced_state: [bool; 21] = [false; 21];
        let mut debounce_counter: [u8; 21] = self.debounce_counter;
        let mut pressed: [bool; 21] = [false; 21];
        let mut released: [bool; 21] = [false; 21];
        let mut depressed_count: u8 = 0;
        let mut pressed_count: u8 = 0;
        let mut released_count: u8 = 0;

        let mut i: usize = 0;
        while i < 21
            invariant
                i <= 21,
                forall|j: int|
                    0 <= j < i ==> (#[trigger] debounced_state@[j]) == self.next_key(
                        new_state@,
                        j,
                    ),
                forall|j: int|
                    0 <= j < i ==> (#[trigger] debounce_counter@[j]) == self.next_counter(
                        new_state@,
                        j,
                    ),
                forall|j: int|
                    0 <= j < i ==> (#[trigger] pressed@[j]) == (self.next_key(new_state@, j)
                        && !self.state@[j]),
                forall|j: int|
                    0 <= j < i ==> (#[trigger] released@[j]) == (!self.next_key(new_state@, j)
                        && self.state@[j]),
                forall|j: int|
                    i <= j < 21 ==> (#[trigger] debounce_counter@[j]) == self.debounce_counter@[j],
                forall|j: int| i <= j < 21 ==> !(#[trigger] pressed@[j]),
                forall|j: int| i <= j < 21 ==> !(#[trigger] released@[j]),
                depressed_count == count_true(debounced_state@.take(i as int)),
                pressed_count == count_true(pressed@.take(i as int)),
                released_count == count_true(released@.take(i as int)),
                depressed_count <= i,
                pressed_count <= i,
                released_count <= i,
            decreases 21 - i,
        {
            let ghost before = (debounced_state@, pressed@, released@);
            if new_state[i] != self.state[i] {
                if debounce_counter[i] == 0 {
                    debounced_state[i] = new_state[i];
                    debounce_counter[i] = DEBOUNCE_COUNTER;
                } else {
                    debounced_state[i] = self.state[i];
                }
            } else {
                debounced_state[i] = self.state[i];
            }

            if debounce_counter[i] > 0 {
                debounce_counter[i] -= 1;
            }
            if debounced_state[i] && !self.state[i] {
                pressed[i] = true;
                pressed_count += 1;
            }
            if !debounced_state[i] && self.state[i] {
                released[i] = true;
                released_count += 1;
            }
            if debounced_state[i] {
                depressed_count += 1;
            }
            proof {
                lemma_count_true_step(debounced_state@, i as int);
                lemma_count_true_step(pressed@, i as int);
                lemma_count_true_step(released@, i as int);
                assert(debounced_state@.take(i as int) =~= before.0.take(i as int));
                assert(pressed@.take(i as int) =~= before.1.take(i as int));
                assert(released@.take(i as int) =~= before.2.take(i as int));
            }
            i += 1;
        }
        proof {
            assert(debounced_state@.take(21) =~= debounced_state@);
            assert(pressed@.take(21) =~= pressed@);
            assert(released@.take(21) =~= released@);
        }
        Self {
            state: debounced_state,
            debounce_counter,
            pressed,
            released,
            depressed_count,
            pressed_count,
            released_count,
        }
    }
}

} // verus!
