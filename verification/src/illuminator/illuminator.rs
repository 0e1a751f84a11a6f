//! What every illumination mode offers.

use crate::illuminator::data::RGB8;
use crate::keyboard_state::KeyboardState;
use crate::synth_engine::SynthState;
use vstd::prelude::*;

verus! {

/// An illumination mode: it follows time, keyboard and synth, and paints the 21 LEDs.
pub trait Illuminator {
    /// Whether an update with these inputs stays within the range of the
    /// mode's counters.
    spec fn update_fits(
        &self,
        delta_t_ms: u32,
        keyboard_state: &KeyboardState,
        synth_state: &SynthState,
    ) -> bool;

    /// Tells whether [`Illuminator::update`] may be called with these inputs.
    fn can_update(
        &self,
        delta_t_ms: u32,
        keyboard_state: &KeyboardState,
        synth_state: &SynthState,
    ) -> (fits: bool)
        ensures
            fits == self.update_fits(delta_t_ms, keyboard_state, synth_state),
    ;

    /// Advances the mode by `delta_t_ms` milliseconds.
    fn update(
        &mut self,
        delta_t_ms: u32,
        keyboard_state: &KeyboardState,
        synth_state: &SynthState,
    )
        requires
            old(self).update_fits(delta_t_ms, keyboard_state, synth_state),
    ;

    /// Paints the LEDs the mode has something to show on.
    fn render(&mut self, leds: &mut [RGB8; 21]);
}

} // verus!
