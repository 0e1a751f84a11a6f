//! An idle pattern: once the keyboard has rested long enough, a band of
//! fully saturated hues moves over the keys.

use crate::illuminator::data::{hsv2rgb, hsv_color, Hsv, RGB8};
use crate::illuminator::illuminator::Illuminator;
use crate::keyboard_state::KeyboardState;
use crate::synth_engine::SynthState;
use vstd::prelude::*;

verus! {

/// Milliseconds of rest after which the pattern shows.
pub const PATTERN_IDLE_MS: u32 = 10000;

/// Hue of LED `index` when the pattern's clock shows `time_ms`: the hues lie
/// 13 apart from LED to LED and move on by one every 20 milliseconds,
/// starting over every 5 seconds.
pub open spec fn pattern_hue(index: int, time_ms: u32) -> u8 {
    ((index * 13 + (time_ms % 5000) / 20) % 255) as u8
}

/// The rest time after `delta_t_ms` more milliseconds: it grows while no key
/// is down, up to the largest value it can hold, and starts over otherwise.
pub open spec fn rested(idle_time_ms: u32, delta_t_ms: u32, depressed_count: u8) -> u32 {
    if depressed_count == 0 {
        idle_time_ms.saturating_add(delta_t_ms)
    } else {
        0
    }
}

pub(crate) fn hue_for(index: usize, time_ms: u32) -> (hue: u8)
    requires
        index < 21,
    ensures
        hue == pattern_hue(index as int, time_ms),
{
    let pattern_offset: u32 = (time_ms % 5000) / 20;
    (((index * 13) as u32 + pattern_offset) % 255) as u8
}

pub struct PatternIlluminator {
    idle_time_ms: u32,
}

impl View for PatternIlluminator {
    type V = u32;

    /// The milliseconds the keyboard has rested.
    closed spec fn view(&self) -> u32 {
        self.idle_time_ms
    }
}

impl PatternIlluminator {
    pub fn new() -> (illuminator: Self)
        ensures
            illuminator@ == 0,
    {
        Self { idle_time_ms: 0 }
    }

    /// The milliseconds the keyboard has rested.
    pub fn idle_time_ms(&self) -> (idle: u32)
        ensures
            idle == self@,
    {
        self.idle_time_ms
    }
}

impl Illuminator for PatternIlluminator {
    open spec fn update_fits(
        &self,
        delta_t_ms: u32,
        keyboard_state: &KeyboardState,
        synth_state: &SynthState,
    ) -> bool {
        true
    }

    fn can_update(
        &self,
        delta_t_ms: u32,
        keyboard_state: &KeyboardState,
        synth_state: &SynthState,
    ) -> (fits: bool) {
        true
    }

    fn update(
        &mut self,
        delta_t_ms: u32,
        keyboard_state: &KeyboardState,
        synth_state: &SynthState,
    )
        ensures
            final(self)@ == rested(old(self)@, delta_t_ms, keyboard_state.depressed_count),
    {
        if keyboard_state.depressed_count == 0 {
            self.idle_time_ms = self.idle_time_ms.saturating_add(delta_t_ms);
        } else {
            self.idle_time_ms = 0;
        }
    }

    /// Paints all LEDs once the keyboard has rested for more than ten
    /// seconds, and none before.
    fn render(&mut self, leds: &mut [RGB8; 21])
        ensures
            final(self)@ == old(self)@,
            old(self)@ > PATTERN_IDLE_MS ==> forall|i: int|
                0 <= i < 21 ==> #[trigger] final(leds)@[i] == hsv_color(
                    Hsv { hue: pattern_hue(i, old(self)@), sat: 255, val: 255 },
                ),
            old(self)@ <= PATTERN_IDLE_MS ==> final(leds)@ == old(leds)@,
    {
        if self.idle_time_ms > PATTERN_IDLE_MS {
            let mut index: usize = 0;
            while index < 21
                invariant
                    index <= 21,
                    self@ == old(self)@,
                    forall|i: int|
                        0 <= i < index ==> #[trigger] leds@[i] == hsv_color(
                            Hsv { hue: pattern_hue(i, self@), sat: 255, val: 255 },
                        ),
                decreases 21 - index,
            {
                let hsv = Hsv { hue: hue_for(index, self.idle_time_ms), sat: 255, val: 255 };

                leds[index] = hsv2rgb(hsv);
                index += 1;
            }
        }
    }
}

} // verus!
