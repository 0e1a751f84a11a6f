//! LED illumination of the keyboard.
//!
//! The engine shows key strikes while the keyboard is played and changes to
//! one of two idle patterns when it has rested for five seconds.

pub mod data;
pub mod firework_pattern_illuminator;
pub mod illuminator;
pub mod keystrike_animation;
pub mod keystrike_illuminator;
pub mod pattern_illuminator;
pub mod rainbow_pattern_illuminator;

use crate::illuminator::data::{black, hsv_color, Hsv, RGB8};
use crate::illuminator::firework_pattern_illuminator::{FireworkPatternIlluminator, Fireworks};
use crate::illuminator::illuminator::Illuminator;
use crate::illuminator::keystrike_illuminator::{
    advance_fits, advanced, pixel_at, KeyData, KeystrikeIlluminator,
};
use crate::illuminator::pattern_illuminator::{pattern_hue, rested};
use crate::illuminator::rainbow_pattern_illuminator::RainbowPatternIlluminator;
use crate::keyboard_state::KeyboardState;
use crate::synth_engine::SynthState;
use vstd::prelude::*;

verus! {

/// Milliseconds of rest after which an idle pattern takes over.
pub const IDLE_MODE_TIMEOUT_MS: u32 = 5000;

#[derive(Clone, Copy, PartialEq, Eq, Structural, Debug)]
pub enum IlluminationMode {
    Keystrike,
    RainbowPattern,
    FireworkPattern,
}

/// The mode of the next cycle. A keyboard that rested less than the timeout
/// shows key strikes. At the moment the timeout is reached the clock picks
/// the idle pattern, which then stays until a key goes down.
pub open spec fn next_mode(mode: IlluminationMode, idle_time_ms: u32, total_time_ms: u32) -> IlluminationMode {
    if idle_time_ms < IDLE_MODE_TIMEOUT_MS {
        IlluminationMode::Keystrike
    } else if mode == IlluminationMode::Keystrike {
        if (total_time_ms / 8) % 2 == 0 {
            IlluminationMode::FireworkPattern
        } else {
            IlluminationMode::RainbowPattern
        }
    } else {
        mode
    }
}

/// Mathematical model of the engine.
pub struct Illumination {
    /// The colours painted last.
    pub leds: Seq<RGB8>,
    /// The keys of the key-strike mode.
    pub keystrike: Seq<KeyData>,
    /// The clock of the rainbow pattern.
    pub rainbow: u32,
    /// The firework pattern.
    pub firework: Fireworks,
    pub mode: IlluminationMode,
    /// Milliseconds since a key was last down, saturating.
    pub idle_time_ms: u32,
    /// Milliseconds since the start, wrapping around.
    pub total_time_ms: u32,
}

impl Illumination {
    pub open spec fn wf(self) -> bool {
        &&& self.leds.len() == 21
        &&& self.keystrike.len() == 21
        &&& self.firework.wf()
    }

    /// The mode that a cycle with these inputs ends in.
    pub open spec fn mode_after(self, delta_t_ms: u32, keyboard_state: &KeyboardState) -> IlluminationMode {
        next_mode(
            self.mode,
            rested(self.idle_time_ms, delta_t_ms, keyboard_state.depressed_count),
            self.total_time_ms.wrapping_add(delta_t_ms),
        )
    }

    /// Whether a cycle with these inputs stays within the range of every
    /// counter it moves: those of the key-strike mode, and those of the
    /// firework pattern when the cycle ends in it.
    pub open spec fn fits(
        self,
        delta_t_ms: u32,
        keyboard_state: &KeyboardState,
        synth_state: &SynthState,
    ) -> bool {
        &&& advance_fits(
            self.keystrike,
            delta_t_ms,
            keyboard_state.state@,
            synth_state.octave,
            21,
        )
        &&& self.mode_after(delta_t_ms, keyboard_state) == IlluminationMode::FireworkPattern
            ==> self.firework.fits(delta_t_ms)
    }

    /// The engine one cycle later. The key-strike mode always follows the
    /// keys; of the idle patterns only the one on show moves.
    pub open spec fn updated(
        self,
        delta_t_ms: u32,
        keyboard_state: &KeyboardState,
        synth_state: &SynthState,
    ) -> Illumination {
        let mode = self.mode_after(delta_t_ms, keyboard_state);
        Illumination {
            leds: self.leds,
            keystrike: advanced(
                self.keystrike,
                delta_t_ms,
                keyboard_state.state@,
                synth_state.octave,
                21,
            ),
            rainbow: if mode == IlluminationMode::RainbowPattern {
                self.rainbow.wrapping_add(delta_t_ms)
            } else {
                self.rainbow
            },
            firework: if mode == IlluminationMode::FireworkPattern {
                self.firework.updated(delta_t_ms)
            } else {
                self.firework
            },
            mode,
            idle_time_ms: rested(self.idle_time_ms, delta_t_ms, keyboard_state.depressed_count),
            total_time_ms: self.total_time_ms.wrapping_add(delta_t_ms),
        }
    }

    /// The colour the mode on show gives LED `i`; black where the
    /// key-strike mode has nothing to show.
    pub open spec fn painted_led(self, i: int) -> RGB8 {
        match self.mode {
            IlluminationMode::Keystrike => match pixel_at(i, self.keystrike[i]) {
                Some(color) => color,
                None => black(),
            },
            IlluminationMode::RainbowPattern => hsv_color(
                Hsv { hue: pattern_hue(i, self.rainbow), sat: 200, val: 50 },
            ),
            IlluminationMode::FireworkPattern => hsv_color(self.firework.keys[i]),
        }
    }

    /// The 21 colours the mode on show paints.
    pub open spec fn painted(self) -> Seq<RGB8> {
        Seq::new(21, |i: int| self.painted_led(i))
    }
}

/// The illumination engine: the three modes, the one on show, and the
/// colours painted last.
pub struct IlluminationEngine {
    led_data: [RGB8; 21],
    keystrike_illuminator: KeystrikeIlluminator,
    rainbow_pattern_illuminator: RainbowPatternIlluminator,
    firework_pattern_illuminator: FireworkPatternIlluminator,
    illumination_mode: IlluminationMode,
    idle_time_ms: u32,
    total_time_ms: u32,
}

impl View for IlluminationEngine {
    type V = Illumination;

    closed spec fn view(&self) -> Illumination {
        Illumination {
            leds: self.led_data@,
            keystrike: self.keystrike_illuminator@,
            rainbow: self.rainbow_pattern_illuminator@,
            firework: self.firework_pattern_illuminator@,
            mode: self.illumination_mode,
            idle_time_ms: self.idle_time_ms,
            total_time_ms: self.total_time_ms,
        }
    }
}

impl IlluminationEngine {
    /// An engine in key-strike mode with all keys off and all LEDs black.
    pub fn new() -> (engine: Self)
        ensures
            engine@.wf(),
            engine@.mode == IlluminationMode::Keystrike,
            engine@.idle_time_ms == 0,
            engine@.total_time_ms == 0,
            engine@.rainbow == 0,
            forall|i: int| 0 <= i < 21 ==> #[trigger] engine@.leds[i] == black(),
    {
        let engine = Self {
            led_data: [RGB8::default(); 21],
            keystrike_illuminator: KeystrikeIlluminator::new(),
            rainbow_pattern_illuminator: RainbowPatternIlluminator::new(),
            firework_pattern_illuminator: FireworkPatternIlluminator::new(),
            illumination_mode: IlluminationMode::Keystrike,
            idle_time_ms: 0,
            total_time_ms: 0,
        };
        proof {
            engine.lemma_wf();
        }
        engine
    }

    /// There are 21 LEDs and 21 keys in every mode.
    pub proof fn lemma_wf(&self)
        ensures
            self@.wf(),
    {
        self.keystrike_illuminator.lemma_len();
        self.firework_pattern_illuminator.lemma_wf();
    }

    /// The mode on show.
    pub fn mode(&self) -> (mode: IlluminationMode)
        ensures
            mode == self@.mode,
    {
        self.illumination_mode
    }

    /// The colours painted last.
    pub fn led_data(&self) -> (leds: &[RGB8; 21])
        ensures
            leds@ == self@.leds,
    {
        &self.led_data
    }

    /// Tells whether [`IlluminationEngine::update`] may be called with these inputs.
    pub fn can_update(
        &self,
        delta_t_ms: u32,
        keyboard_state: &KeyboardState,
        synth_state: &SynthState,
    ) -> (fits: bool)
        ensures
            fits == self@.fits(delta_t_ms, keyboard_state, synth_state),
    {
        if !self.keystrike_illuminator.can_update(delta_t_ms, keyboard_state, synth_state) {
            return false;
        }
        let total_time_ms = self.total_time_ms.wrapping_add(delta_t_ms);
        let idle_time_ms = if keyboard_state.depressed_count == 0 {
            self.idle_time_ms.saturating_add(delta_t_ms)
        } else {
            0
        };
        let mode = Self::pick_mode(self.illumination_mode, idle_time_ms, total_time_ms);
        match mode {
            IlluminationMode::FireworkPattern => self.firework_pattern_illuminator.can_update(
                delta_t_ms,
                keyboard_state,
                synth_state,
            ),
            _ => true,
        }
    }

    fn pick_mode(mode: IlluminationMode, idle_time_ms: u32, total_time_ms: u32) -> (next:
        IlluminationMode)
        ensures
            next == next_mode(mode, idle_time_ms, total_time_ms),
    {
        if idle_time_ms < IDLE_MODE_TIMEOUT_MS {
            IlluminationMode::Keystrike
        } else if mode == IlluminationMode::Keystrike {
            if (total_time_ms / 8) % 2 == 0 {
                IlluminationMode::FireworkPattern
            } else {
                IlluminationMode::RainbowPattern
            }
        } else {
            mode
        }
    }

    /// Advances the engine by `delta_t_ms` milliseconds.
    pub fn update(
        &mut self,
        delta_t_ms: u32,
        keyboard_state: &KeyboardState,
        synth_state: &SynthState,
    )
        requires
            old(self)@.fits(delta_t_ms, keyboard_state, synth_state),
        ensures
            final(self)@ == old(self)@.updated(delta_t_ms, keyboard_state, synth_state),
    {
        self.total_time_ms = self.total_time_ms.wrapping_add(delta_t_ms);

        if keyboard_state.depressed_count == 0 {
            self.idle_time_ms = self.idle_time_ms.saturating_add(delta_t_ms);
        } else {
            self.idle_time_ms = 0;
        }

        self.keystrike_illuminator.update(delta_t_ms, keyboard_state, synth_state);

        self.illumination_mode = Self::pick_mode(
            self.illumination_mode,
            self.idle_time_ms,
            self.total_time_ms,
        );

        match self.illumination_mode {
            IlluminationMode::RainbowPattern => {
                self.rainbow_pattern_illuminator.update(delta_t_ms, keyboard_state, synth_state);
            },
            IlluminationMode::FireworkPattern => {
                self.firework_pattern_illuminator.update(delta_t_ms, keyboard_state, synth_state);
            },
            _ => {},
        }
    }

    /// Paints the LEDs: all black first, then what the mode on show has.
    pub fn render(&mut self)
        ensures
            final(self)@ == (Illumination { leds: old(self)@.painted(), ..old(self)@ }),
    {
        let mut i: usize = 0;
        while i < 21
            invariant
                i <= 21,
                forall|j: int| 0 <= j < i ==> #[trigger] self.led_data@[j] == black(),
                self@ == (Illumination { leds: self@.leds, ..old(self)@ }),
            decreases 21 - i,
        {
            self.led_data[i] = RGB8::default();
            i += 1;
        }

        match self.illumination_mode {
            IlluminationMode::Keystrike => {
                self.keystrike_illuminator.render(&mut self.led_data);
            },
            IlluminationMode::RainbowPattern => {
                self.rainbow_pattern_illuminator.render(&mut self.led_data);
            },
            IlluminationMode::FireworkPattern => {
                self.firework_pattern_illuminator.render(&mut self.led_data);
            },
        }
        assert(self@.leds =~= old(self)@.painted());
    }
}

} // verus!
