//! The mode that answers key strikes: a struck key lights up, its
//! neighbourhood glows for a moment, a released key fades, and the key of the
//! octave in view stays lit.

use crate::illuminator::data::{
    adjacency_recursion, adjacency_visits, black, lemma_visits_are_keys, packed, PixelAnimation,
    PixelHelpers, NO_NEIGHBOR, RGB8,
};
use crate::illuminator::illuminator::Illuminator;
use crate::illuminator::keystrike_animation::{
    KeyFadeAnimation, KeyRadiantAnimation, NormalKeyPressAnimation, OctaveKeyPressAnimation,
    SelectedOctaveAnimation, FADE_DURATION,
};
use crate::keyboard_state::KeyboardState;
use crate::synth_engine::SynthState;
use vstd::prelude::*;

verus! {

/// Milliseconds after which a glowing neighbour starts to fade.
pub const RADIANT_DURATION: u32 = 50;

/// How far the glow of a struck key reaches beyond its neighbours: the
/// neighbours glow, and so do their neighbours.
pub const RADIANT_REACH: u8 = 1;

#[derive(Clone, Copy, PartialEq, Eq, Structural, Debug)]
pub enum KeyType {
    Normal,
    Octave,
}

#[derive(Clone, Copy, PartialEq, Eq, Structural, Debug)]
pub enum KeyState {
    Off,
    Pressed,
    Selected,
    Fade,
    Radiant,
}

/// What the mode keeps for one key: its state, the datum of the state's
/// animation, and the milliseconds spent in the state.
#[derive(Clone, Copy, PartialEq, Eq, Structural, Debug)]
pub struct KeyData {
    pub state: KeyState,
    pub data: u32,
    pub counter: u32,
}

impl KeyData {
    pub fn new() -> (key: Self)
        ensures
            key == (KeyData { state: KeyState::Off, data: 0, counter: 0 }),
    {
        Self { state: KeyState::Off, data: 0, counter: 0 }
    }
}

/// Keys 0 to 7 select octaves, the others play notes.
pub open spec fn key_type(key_index: int) -> KeyType {
    if key_index <= 7 {
        KeyType::Octave
    } else {
        KeyType::Normal
    }
}

/// The colour a key of `key_type` shows for `key`; none while it is off.
pub open spec fn pixel(key_type: KeyType, key: KeyData) -> Option<RGB8> {
    match key.state {
        KeyState::Pressed => match key_type {
            KeyType::Normal => Some(NormalKeyPressAnimation::color(key.data, key.counter)),
            KeyType::Octave => Some(OctaveKeyPressAnimation::color(key.data, key.counter)),
        },
        KeyState::Fade => Some(KeyFadeAnimation::color(key.data, key.counter)),
        KeyState::Radiant => Some(KeyRadiantAnimation::color(key.data, key.counter)),
        KeyState::Selected => Some(SelectedOctaveAnimation::color(key.data, key.counter)),
        KeyState::Off => None,
    }
}

/// The colour key `key_index` shows for `key`.
pub open spec fn pixel_at(key_index: int, key: KeyData) -> Option<RGB8> {
    pixel(key_type(key_index), key)
}

/// `key` as it starts to fade: the fade sets out from the colour the key
/// shows now.
pub open spec fn fading(key_index: int, key: KeyData) -> KeyData {
    KeyData {
        state: KeyState::Fade,
        counter: 0,
        data: packed(
            match pixel_at(key_index, key) {
                Some(color) => color,
                None => black(),
            },
        ),
    }
}

/// The keys after one visit of a glow: a visited key that is off starts to
/// glow and remembers the level of the visit; any other key stays as it is.
pub open spec fn lit(keys: Seq<KeyData>, visit: (u8, u8)) -> Seq<KeyData> {
    let index = visit.0 as int;
    if index < keys.len() && keys[index].state == KeyState::Off {
        keys.update(index, KeyData { state: KeyState::Radiant, data: visit.1 as u32, counter: 0 })
    } else {
        keys
    }
}

/// The keys after the first `n` of `visits`.
pub open spec fn radiated(keys: Seq<KeyData>, visits: Seq<(u8, u8)>, n: nat) -> Seq<KeyData>
    decreases n,
{
    if n == 0 {
        keys
    } else {
        lit(radiated(keys, visits, (n - 1) as nat), visits[n - 1])
    }
}

/// The keys after the glow of a strike on `key_index` went over the
/// neighbourhood.
pub open spec fn struck(keys: Seq<KeyData>, key_index: int) -> Seq<KeyData> {
    let visits = adjacency_visits(NO_NEIGHBOR, key_index as u8, RADIANT_REACH);
    radiated(keys, visits, visits.len())
}

/// Whether this cycle adds its milliseconds to the counter of `key`.
pub open spec fn counts_on(key: KeyData, key_index: int, down: bool, octave: u8) -> bool {
    match key.state {
        KeyState::Off => false,
        KeyState::Pressed => down,
        KeyState::Fade => !down,
        KeyState::Radiant => !down && key.counter <= RADIANT_DURATION,
        KeyState::Selected => octave == key_index + 1,
    }
}

/// Whether the step of key `key_index` stays within the range of its counter.
pub open spec fn step_fits(
    keys: Seq<KeyData>,
    key_index: int,
    delta_t_ms: u32,
    down: bool,
    octave: u8,
) -> bool {
    counts_on(keys[key_index], key_index, down, octave) ==> keys[key_index].counter + delta_t_ms
        <= u32::MAX
}

/// The keys after the step of key `key_index`, whose switch is `down` or not.
///
/// - Off: a key that went down is pressed, and its neighbourhood glows.
/// - Pressed: a key that went up starts to fade; a held key counts on.
/// - Fade: a key that went down is pressed again, and its neighbourhood
///   glows; otherwise it counts on and is off once the fade is over.
/// - Radiant: a key that went down is pressed, and its neighbourhood glows;
///   otherwise it counts on and starts to fade once it glowed long enough.
/// - Selected: the key counts on while its octave is in view and starts to
///   fade when it is not.
pub open spec fn step(
    keys: Seq<KeyData>,
    key_index: int,
    delta_t_ms: u32,
    down: bool,
    octave: u8,
) -> Seq<KeyData> {
    let key = keys[key_index];
    let counted = KeyData { counter: (key.counter + delta_t_ms) as u32, ..key };
    match key.state {
        KeyState::Off => if down {
            struck(
                keys.update(key_index, KeyData { state: KeyState::Pressed, counter: 0, ..key }),
                key_index,
            )
        } else {
            keys
        },
        KeyState::Pressed => if !down {
            keys.update(key_index, fading(key_index, key))
        } else {
            keys.update(key_index, counted)
        },
        KeyState::Fade => if down {
            struck(keys.update(key_index, KeyData { state: KeyState::Pressed, ..key }), key_index)
        } else if key.counter + delta_t_ms > FADE_DURATION {
            keys.update(key_index, KeyData { state: KeyState::Off, counter: 0, ..key })
        } else {
            keys.update(key_index, counted)
        },
        KeyState::Radiant => if down {
            struck(keys.update(key_index, KeyData { state: KeyState::Pressed, ..key }), key_index)
        } else if key.counter > RADIANT_DURATION {
            keys.update(key_index, fading(key_index, key))
        } else {
            keys.update(key_index, counted)
        },
        KeyState::Selected => if octave != key_index + 1 {
            keys.update(key_index, fading(key_index, key))
        } else {
            keys.update(key_index, counted)
        },
    }
}

/// The keys with the key of `octave` marked as selected.
pub open spec fn selected(keys: Seq<KeyData>, octave: u8) -> Seq<KeyData> {
    keys.update(octave - 1, KeyData { state: KeyState::Selected, ..keys[octave - 1] })
}

/// The keys after the key of the octave in view was marked and the first
/// `n` keys took their steps, one after the other.
pub open spec fn advanced(
    keys: Seq<KeyData>,
    delta_t_ms: u32,
    down: Seq<bool>,
    octave: u8,
    n: nat,
) -> Seq<KeyData>
    decreases n,
{
    if n == 0 {
        selected(keys, octave)
    } else {
        step(
            advanced(keys, delta_t_ms, down, octave, (n - 1) as nat),
            n - 1,
            delta_t_ms,
            down[n - 1],
            octave,
        )
    }
}

/// Whether `octave` names a key and the steps of the first `n` keys all
/// stay within the range of their counters.
pub open spec fn advance_fits(
    keys: Seq<KeyData>,
    delta_t_ms: u32,
    down: Seq<bool>,
    octave: u8,
    n: nat,
) -> bool
    decreases n,
{
    if n == 0 {
        1 <= octave <= 21
    } else {
        advance_fits(keys, delta_t_ms, down, octave, (n - 1) as nat) && step_fits(
            advanced(keys, delta_t_ms, down, octave, (n - 1) as nat),
            n - 1,
            delta_t_ms,
            down[n - 1],
            octave,
        )
    }
}

/// Steps that fit up to some key fit up to every key before it.
pub proof fn lemma_advance_fits_prefix(
    keys: Seq<KeyData>,
    delta_t_ms: u32,
    down: Seq<bool>,
    octave: u8,
    m: nat,
    n: nat,
)
    requires
        m <= n,
        advance_fits(keys, delta_t_ms, down, octave, n),
    ensures
        advance_fits(keys, delta_t_ms, down, octave, m),
    decreases n,
{
    if m < n {
        lemma_advance_fits_prefix(keys, delta_t_ms, down, octave, m, (n - 1) as nat);
    }
}

/// The steps always fit when no time passes.
pub proof fn lemma_advance_fits_without_time(
    keys: Seq<KeyData>,
    down: Seq<bool>,
    octave: u8,
    n: nat,
)
    requires
        1 <= octave <= 21,
    ensures
        advance_fits(keys, 0, down, octave, n),
    decreases n,
{
    if n > 0 {
        lemma_advance_fits_without_time(keys, down, octave, (n - 1) as nat);
    }
}

fn radiate(key_data: &mut [KeyData; 21], key_index: usize)
    requires
        key_index < 21,
    ensures
        final(key_data)@ == struck(old(key_data)@, key_index as int),
{
    let ghost start = key_data@;
    let visits = adjacency_recursion(NO_NEIGHBOR, key_index as u8, RADIANT_REACH);
    let mut k: usize = 0;
    while k < visits.len()
        invariant
            k <= visits.len(),
            key_index < 21,
            visits@ == adjacency_visits(NO_NEIGHBOR, key_index as u8, RADIANT_REACH),
            key_data@ == radiated(start, visits@, k as nat),
        decreases visits.len() - k,
    {
        let (index, recurse_level) = visits[k];
        proof {
            lemma_visits_are_keys(NO_NEIGHBOR, key_index as u8, RADIANT_REACH, 0, k as int);
        }
        let neighbor = key_data[index as usize];
        if neighbor.state == KeyState::Off {
            key_data[index as usize] = KeyData {
                state: KeyState::Radiant,
                data: recurse_level as u32,
                counter: 0,
            };
        }
        k += 1;
    }
}

fn advance_key(
    key_data: &mut [KeyData; 21],
    key_index: usize,
    delta_t_ms: u32,
    down: bool,
    octave: u8,
) -> (fits: bool)
    requires
        key_index < 21,
    ensures
        fits == step_fits(old(key_data)@, key_index as int, delta_t_ms, down, octave),
        fits ==> final(key_data)@ == step(
            old(key_data)@,
            key_index as int,
            delta_t_ms,
            down,
            octave,
        ),
{
    let key = key_data[key_index];
    match key.state {
        KeyState::Off => {
            if down {
                key_data[key_index] = KeyData { state: KeyState::Pressed, data: key.data, counter: 0 };
                radiate(key_data, key_index);
            }
        },
        KeyState::Pressed => {
            if !down {
                key_data[key_index] = KeystrikeIlluminator::begin_fade(key_index, &key);
            } else {
                if key.counter > u32::MAX - delta_t_ms {
                    return false;
                }
                key_data[key_index] = KeyData {
                    state: key.state,
                    data: key.data,
                    counter: key.counter + delta_t_ms,
                };
            }
        },
        KeyState::Fade => {
            if down {
                key_data[key_index] = KeyData {
                    state: KeyState::Pressed,
                    data: key.data,
                    counter: key.counter,
                };
                radiate(key_data, key_index);
            } else {
                if key.counter > u32::MAX - delta_t_ms {
                    return false;
                }
                let counter: u32 = key.counter + delta_t_ms;
                if KeyFadeAnimation::is_complete(counter) {
                    key_data[key_index] = KeyData { state: KeyState::Off, data: key.data, counter: 0 };
                } else {
                    key_data[key_index] = KeyData { state: key.state, data: key.data, counter };
                }
            }
        },
        KeyState::Radiant => {
            if down {
                key_data[key_index] = KeyData {
                    state: KeyState::Pressed,
                    data: key.data,
                    counter: key.counter,
                };
                radiate(key_data, key_index);
            } else if key.counter > RADIANT_DURATION {
                key_data[key_index] = KeystrikeIlluminator::begin_fade(key_index, &key);
            } else {
                if key.counter > u32::MAX - delta_t_ms {
                    return false;
                }
                key_data[key_index] = KeyData {
                    state: key.state,
                    data: key.data,
                    counter: key.counter + delta_t_ms,
                };
            }
        },
        KeyState::Selected => {
            if octave != (key_index as u8 + 1) {
                key_data[key_index] = KeystrikeIlluminator::begin_fade(key_index, &key);
            } else {
                if key.counter > u32::MAX - delta_t_ms {
                    return false;
                }
                key_data[key_index] = KeyData {
                    state: key.state,
                    data: key.data,
                    counter: key.counter + delta_t_ms,
                };
            }
        },
    }
    true
}

fn advance(key_data: &mut [KeyData; 21], delta_t_ms: u32, down: &[bool; 21], octave: u8) -> (fits:
    bool)
    ensures
        fits == advance_fits(old(key_data)@, delta_t_ms, down@, octave, 21),
        fits ==> final(key_data)@ == advanced(old(key_data)@, delta_t_ms, down@, octave, 21),
{
    let ghost start = key_data@;
    if octave < 1 || octave > 21 {
        proof {
            if advance_fits(start, delta_t_ms, down@, octave, 21) {
                lemma_advance_fits_prefix(start, delta_t_ms, down@, octave, 0, 21);
            }
        }
        return false;
    }
    let marked = key_data[octave as usize - 1];
    key_data[octave as usize - 1] = KeyData {
        state: KeyState::Selected,
        data: marked.data,
        counter: marked.counter,
    };

    let mut key_index: usize = 0;
    while key_index < 21
        invariant
            key_index <= 21,
            start == old(key_data)@,
            advance_fits(start, delta_t_ms, down@, octave, key_index as nat),
            key_data@ == advanced(start, delta_t_ms, down@, octave, key_index as nat),
        decreases 21 - key_index,
    {
        let ghost before = key_data@;
        let fits = advance_key(key_data, key_index, delta_t_ms, down[key_index], octave);
        if !fits {
            proof {
                assert(!step_fits(before, key_index as int, delta_t_ms, down@[key_index as int], octave));
                assert(!advance_fits(start, delta_t_ms, down@, octave, (key_index + 1) as nat));
                if advance_fits(start, delta_t_ms, down@, octave, 21) {
                    lemma_advance_fits_prefix(
                        start,
                        delta_t_ms,
                        down@,
                        octave,
                        (key_index + 1) as nat,
                        21,
                    );
                }
            }
            return false;
        }
        key_index += 1;
    }
    true
}

/// The key-strike mode.
pub struct KeystrikeIlluminator {
    key_data: [KeyData; 21],
}

impl View for KeystrikeIlluminator {
    type V = Seq<KeyData>;

    closed spec fn view(&self) -> Seq<KeyData> {
        self.key_data@
    }
}

impl KeystrikeIlluminator {
    /// All keys off.
    pub fn new() -> (illuminator: Self)
        ensures
            illuminator@.len() == 21,
            forall|i: int|
                0 <= i < 21 ==> #[trigger] illuminator@[i] == (KeyData {
                    state: KeyState::Off,
                    data: 0,
                    counter: 0,
                }),
    {
        Self { key_data: [KeyData::new(); 21] }
    }

    /// What the mode keeps for key `key_index`.
    pub fn key_data(&self, key_index: usize) -> (key: KeyData)
        requires
            key_index < 21,
        ensures
            key == self@[key_index as int],
    {
        self.key_data[key_index]
    }

    /// There are 21 keys.
    pub proof fn lemma_len(&self)
        ensures
            self@.len() == 21,
    {
    }

    pub fn keytype_for_index(key_index: usize) -> (key_type: KeyType)
        ensures
            key_type == self::key_type(key_index as int),
    {
        match key_index {
            0..=7 => KeyType::Octave,
            _ => KeyType::Normal,
        }
    }

    pub fn compute_pixel_for_index(key_index: usize, key_data: &KeyData) -> (color: Option<RGB8>)
        ensures
            color == pixel_at(key_index as int, *key_data),
    {
        let key_type = KeystrikeIlluminator::keytype_for_index(key_index);
        KeystrikeIlluminator::compute_pixel(key_type, key_data)
    }

    pub fn compute_pixel(key_type: KeyType, key_data: &KeyData) -> (color: Option<RGB8>)
        ensures
            color == pixel(key_type, *key_data),
    {
        let color: Option<RGB8> = match key_data.state {
            KeyState::Pressed => match key_type {
                KeyType::Normal => Some(
                    NormalKeyPressAnimation::compute(key_data.data, key_data.counter),
                ),
                KeyType::Octave => Some(
                    OctaveKeyPressAnimation::compute(key_data.data, key_data.counter),
                ),
            },
            KeyState::Fade => Some(KeyFadeAnimation::compute(key_data.data, key_data.counter)),
            KeyState::Radiant => Some(KeyRadiantAnimation::compute(key_data.data, key_data.counter)),
            KeyState::Selected => Some(
                SelectedOctaveAnimation::compute(key_data.data, key_data.counter),
            ),
            _ => None,
        };

        color
    }

    fn begin_fade(key_index: usize, key_data: &KeyData) -> (next: KeyData)
        ensures
            next == fading(key_index as int, *key_data),
    {
        let previous_color = KeystrikeIlluminator::compute_pixel_for_index(key_index, key_data);
        let previous_color = match previous_color {
            Some(color) => color,
            None => RGB8::default(),
        };
        KeyData { state: KeyState::Fade, counter: 0, data: previous_color.serialize() }
    }
}

impl Illuminator for KeystrikeIlluminator {
    /// The octave in view names a key, and no counter leaves its range.
    open spec fn update_fits(
        &self,
        delta_t_ms: u32,
        keyboard_state: &KeyboardState,
        synth_state: &SynthState,
    ) -> bool {
        advance_fits(self@, delta_t_ms, keyboard_state.state@, synth_state.octave, 21)
    }

    fn can_update(
        &self,
        delta_t_ms: u32,
        keyboard_state: &KeyboardState,
        synth_state: &SynthState,
    ) -> (fits: bool) {
        let mut trial = self.key_data;
        advance(&mut trial, delta_t_ms, &keyboard_state.state, synth_state.octave)
    }

    /// Marks the key of the octave in view, then lets the 21 keys take their
    /// steps in order.
    fn update(
        &mut self,
        delta_t_ms: u32,
        keyboard_state: &KeyboardState,
        synth_state: &SynthState,
    )
        ensures
            final(self)@ == advanced(
                old(self)@,
                delta_t_ms,
                keyboard_state.state@,
                synth_state.octave,
                21,
            ),
    {
        let fits = advance(
            &mut self.key_data,
            delta_t_ms,
            &keyboard_state.state,
            synth_state.octave,
        );
    }

    /// Paints every key that is not off and leaves the other LEDs as they are.
    fn render(&mut self, leds: &mut [RGB8; 21])
        ensures
            final(self)@ == old(self)@,
            forall|i: int|
                0 <= i < 21 ==> #[trigger] final(leds)@[i] == (match pixel_at(i, old(self)@[i]) {
                    Some(color) => color,
                    None => old(leds)@[i],
                }),
    {
        let ghost before = leds@;
        let mut key_index: usize = 0;
        while key_index < 21
            invariant
                key_index <= 21,
                self@ == old(self)@,
                forall|i: int|
                    0 <= i < key_index ==> #[trigger] leds@[i] == (match pixel_at(i, self@[i]) {
                        Some(color) => color,
                        None => before[i],
                    }),
                forall|i: int| key_index <= i < 21 ==> #[trigger] leds@[i] == before[i],
            decreases 21 - key_index,
        {
            let key_data = &self.key_data[key_index];

            let color = KeystrikeIlluminator::compute_pixel_for_index(key_index, key_data);

            match color {
                Some(color) => {
                    leds[key_index] = color;
                },
                None => {},
            }
            key_index += 1;
        }
    }
}

} // verus!
