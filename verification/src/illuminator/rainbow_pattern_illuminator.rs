//! An idle pattern: a dim band of hues that moves over the keys all the time.

use crate::illuminator::data::{hsv2rgb, hsv_color, Hsv, RGB8};
use crate::illuminator::illuminator::Illuminator;
use crate::illuminator::pattern_illuminator::{hue_for, pattern_hue};
use crate::keyboard_state::KeyboardState;
use crate::synth_engine::SynthState;
use vstd::prelude::*;

verus! {

pub struct RainbowPatternIlluminator {
    time_ms: u32,
}

impl View for RainbowPatternIlluminator {
    type V = u32;

    /// The pattern's clock, in milliseconds.
    closed spec fn view(&self) -> u32 {
        self.time_ms
    }
}

impl RainbowPatternIlluminator {
    pub fn new() -> (illuminator: Self)
        ensures
            illuminator@ == 0,
    {
        Self { time_ms: 0 }
    }

    /// The pattern's clock, in milliseconds.
    pub fn time_ms(&self) -> (time: u32)
        ensures
            time == self@,
    {
        self.time_ms
    }
}

impl Illuminator for RainbowPatternIlluminator {
    open spec fn update_fits(
        &self,
        delta_t_ms: u32,
        keyboard_state: &KeyboardState,
        synth_state: &SynthState,
    ) -> bool {
        true
    }

    fn can_update(
        &self,
        delta_t_ms: u32,
        keyboard_state: &KeyboardState,
        synth_state: &SynthState,
    ) -> (fits: bool) {
        true
    }

    /// Moves the clock on; it wraps around when it is full.
    fn update(
        &mut self,
        delta_t_ms: u32,
        keyboard_state: &KeyboardState,
        synth_state: &SynthState,
    )
        ensures
            final(self)@ == old(self)@.wrapping_add(delta_t_ms),
    {
        self.time_ms = self.time_ms.wrapping_add(delta_t_ms);
    }

    fn render(&mut self, leds: &mut [RGB8; 21])
        ensures
            final(self)@ == old(self)@,
            forall|i: int|
                0 <= i < 21 ==> #[trigger] final(leds)@[i] == hsv_color(
                    Hsv { hue: pattern_hue(i, old(self)@), sat: 200, val: 50 },
                ),
    {
        let mut index: usize = 0;
        while index < 21
            invariant
                index <= 21,
                self@ == old(self)@,
                forall|i: int|
                    0 <= i < index ==> #[trigger] leds@[i] == hsv_color(
                        Hsv { hue: pattern_hue(i, self@), sat: 200, val: 50 },
                    ),
            decreases 21 - index,
        {
            let hsv = Hsv { hue: hue_for(index, self.time_ms), sat: 200, val: 50 };

            leds[index] = hsv2rgb(hsv);
            index += 1;
        }
    }
}

} // verus!
