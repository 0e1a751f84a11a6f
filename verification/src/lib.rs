//! Firmware core of a keyboard input/output module.
//!
//! The module exposes its state as a byte-addressable register file over a
//! two-wire bus on which it is the addressed device.
//!
//! - [`comms`] reconstructs register transactions from bus events and hands
//!   over one finalized command at a time.
//! - [`protocol`] applies a command to the synth engine and computes the
//!   answer to a read of each register.
//! - [`keyboard_matrix`] and [`keyboard_state`] map the crossings of the key
//!   matrix onto the keys and debounce them.
//! - [`synth_engine`] tracks the octave in view and the state of every note.
//! - [`illuminator`] paints the LEDs of the keyboard.
//! - [`led_matrix`] takes the LEDs of the encoder ring in turns.
//!
//! Driving pins, the bus peripheral and the LED strand are left to the
//! program around the library.

pub mod comms;
pub mod illuminator;
pub mod keyboard_matrix;
pub mod keyboard_state;
pub mod led_matrix;
pub mod protocol;
pub mod synth_engine;
