//! The colours a key runs through after it was struck, selected or left.

use crate::illuminator::data::{black, faded, min, unpacked, PixelAnimation, PixelHelpers, RGB8};
use vstd::prelude::*;

verus! {

/// Milliseconds a colour cycle of a held key lasts.
pub const SUSTAIN_DURATION: u32 = 1000;

/// Milliseconds a released key takes to go dark.
pub const FADE_DURATION: u32 = 1000;

pub open spec fn normal_strike_color_value() -> RGB8 {
    RGB8 { r: 0, g: 255, b: 0 }
}

pub open spec fn normal_sustain_color_1_value() -> RGB8 {
    RGB8 { r: 0, g: 64, b: 0 }
}

pub open spec fn normal_sustain_color_2_value() -> RGB8 {
    RGB8 { r: 32, g: 32, b: 0 }
}

pub open spec fn octave_strike_color_value() -> RGB8 {
    RGB8 { r: 0, g: 64, b: 255 }
}

pub open spec fn octave_selected_color_1_value() -> RGB8 {
    RGB8 { r: 0, g: 0, b: 32 }
}

pub open spec fn octave_selected_color_2_value() -> RGB8 {
    RGB8 { r: 16, g: 16, b: 48 }
}

/// Colour of a key that lies `radius` steps beyond the neighbours of a struck key.
pub open spec fn neighbor_color_value(radius: u32) -> RGB8 {
    if radius == 0 {
        RGB8 { r: 17, g: 64, b: 4 }
    } else if radius == 1 {
        RGB8 { r: 239, g: 64, b: 161 }
    } else if radius == 2 {
        RGB8 { r: 128, g: 255, b: 219 }
    } else {
        black()
    }
}

#[verifier::when_used_as_spec(normal_strike_color_value)]
pub fn normal_strike_color() -> (color: RGB8)
    ensures
        color == normal_strike_color_value(),
{
    RGB8 { r: 0, g: 255, b: 0 }
}

#[verifier::when_used_as_spec(normal_sustain_color_1_value)]
pub fn normal_sustain_color_1() -> (color: RGB8)
    ensures
        color == normal_sustain_color_1_value(),
{
    RGB8 { r: 0, g: 64, b: 0 }
}

#[verifier::when_used_as_spec(normal_sustain_color_2_value)]
pub fn normal_sustain_color_2() -> (color: RGB8)
    ensures
        color == normal_sustain_color_2_value(),
{
    RGB8 { r: 32, g: 32, b: 0 }
}

#[verifier::when_used_as_spec(octave_strike_color_value)]
pub fn octave_strike_color() -> (color: RGB8)
    ensures
        color == octave_strike_color_value(),
{
    RGB8 { r: 0, g: 64, b: 255 }
}

#[verifier::when_used_as_spec(octave_selected_color_1_value)]
pub fn octave_selected_color_1() -> (color: RGB8)
    ensures
        color == octave_selected_color_1_value(),
{
    RGB8 { r: 0, g: 0, b: 32 }
}

#[verifier::when_used_as_spec(octave_selected_color_2_value)]
pub fn octave_selected_color_2() -> (color: RGB8)
    ensures
        color == octave_selected_color_2_value(),
{
    RGB8 { r: 16, g: 16, b: 48 }
}

#[verifier::when_used_as_spec(neighbor_color_value)]
pub fn neighbor_color(radius: u32) -> (color: RGB8)
    ensures
        color == neighbor_color_value(radius),
{
    match radius {
        0 => RGB8 { r: 17, g: 64, b: 4 },
        1 => RGB8 { r: 239, g: 64, b: 161 },
        2 => RGB8 { r: 128, g: 255, b: 219 },
        _ => RGB8::default(),
    }
}

/// Colour that swings between `first` and `second`: from `first` to
/// `second` while `duration` is in an even second, back again in an odd one.
pub open spec fn swing(first: RGB8, second: RGB8, duration: u32) -> RGB8 {
    let percent = ((duration % SUSTAIN_DURATION) / 10) as u8;
    if (duration / SUSTAIN_DURATION) % 2 == 0 {
        faded(first, second, percent)
    } else {
        faded(second, first, percent)
    }
}

/// Colour of a key held for `duration` milliseconds: for one second it goes
/// from the strike colour to the first sustain colour, after that it swings
/// between the two sustain colours.
pub open spec fn keypress_color(
    strike_color: RGB8,
    sustain_color_1: RGB8,
    sustain_color_2: RGB8,
    duration: u32,
) -> RGB8 {
    if duration < SUSTAIN_DURATION {
        faded(strike_color, sustain_color_1, (duration / 10) as u8)
    } else {
        swing(sustain_color_1, sustain_color_2, (duration - SUSTAIN_DURATION) as u32)
    }
}

fn swing_compute(first: RGB8, second: RGB8, duration: u32) -> (color: RGB8)
    ensures
        color == swing(first, second, duration),
{
    let percent = min(100, ((duration % SUSTAIN_DURATION) / 10) as u8);

    if duration / SUSTAIN_DURATION % 2 == 0 {
        first.fade(second, percent)
    } else {
        second.fade(first, percent)
    }
}

pub fn keypress_compute(
    strike_color: RGB8,
    sustain_color_1: RGB8,
    sustain_color_2: RGB8,
    data: u32,
    duration: u32,
) -> (color: RGB8)
    ensures
        color == keypress_color(strike_color, sustain_color_1, sustain_color_2, duration),
{
    if duration < SUSTAIN_DURATION {
        let percent = min(100, (duration / 10) as u8);

        strike_color.fade(sustain_color_1, percent)
    } else {
        swing_compute(sustain_color_1, sustain_color_2, duration - SUSTAIN_DURATION)
    }
}

/// A struck note key.
pub struct NormalKeyPressAnimation {}

impl PixelAnimation for NormalKeyPressAnimation {
    open spec fn color(data: u32, duration: u32) -> RGB8 {
        keypress_color(
            normal_strike_color(),
            normal_sustain_color_1(),
            normal_sustain_color_2(),
            duration,
        )
    }

    fn compute(data: u32, duration: u32) -> (color: RGB8) {
        keypress_compute(
            normal_strike_color(),
            normal_sustain_color_1(),
            normal_sustain_color_2(),
            data,
            duration,
        )
    }
}

/// A struck octave key.
pub struct OctaveKeyPressAnimation {}

impl PixelAnimation for OctaveKeyPressAnimation {
    open spec fn color(data: u32, duration: u32) -> RGB8 {
        keypress_color(
            octave_strike_color(),
            octave_selected_color_1(),
            octave_selected_color_2(),
            duration,
        )
    }

    fn compute(data: u32, duration: u32) -> (color: RGB8) {
        keypress_compute(
            octave_strike_color(),
            octave_selected_color_1(),
            octave_selected_color_2(),
            data,
            duration,
        )
    }
}

/// The key of the octave in view.
pub struct SelectedOctaveAnimation {}

impl PixelAnimation for SelectedOctaveAnimation {
    /// The first selected colour for one second, then a swing between the two.
    open spec fn color(data: u32, duration: u32) -> RGB8 {
        if duration < SUSTAIN_DURATION {
            octave_selected_color_1()
        } else {
            swing(
                octave_selected_color_1(),
                octave_selected_color_2(),
                (duration - SUSTAIN_DURATION) as u32,
            )
        }
    }

    fn compute(data: u32, duration: u32) -> (color: RGB8) {
        if duration < SUSTAIN_DURATION {
            octave_selected_color_1()
        } else {
            swing_compute(
                octave_selected_color_1(),
                octave_selected_color_2(),
                duration - SUSTAIN_DURATION,
            )
        }
    }
}

/// A key on its way to dark.
pub struct KeyFadeAnimation {}

impl KeyFadeAnimation {
    /// Whether a fade that ran for `duration` milliseconds is over.
    pub fn is_complete(duration: u32) -> (complete: bool)
        ensures
            complete == (duration > FADE_DURATION),
    {
        duration > FADE_DURATION
    }
}

impl PixelAnimation for KeyFadeAnimation {
    /// From the colour packed in `data` to black, one percent every ten
    /// milliseconds. The percentage is kept in a byte and starts over when
    /// the byte is full.
    open spec fn color(data: u32, duration: u32) -> RGB8 {
        faded(unpacked(data), black(), ((duration / 10) % 0x100) as u8)
    }

    fn compute(data: u32, duration: u32) -> (color: RGB8) {
        let percent = min(100, ((duration / 10) % 0x100) as u8);
        let start_color = RGB8::deserialize(data);

        start_color.fade(RGB8::default(), percent)
    }
}

/// A key near a struck key.
pub struct KeyRadiantAnimation {}

impl PixelAnimation for KeyRadiantAnimation {
    /// The neighbour colour of the radius stored in `data`.
    open spec fn color(data: u32, duration: u32) -> RGB8 {
        neighbor_color(data)
    }

    fn compute(data: u32, duration: u32) -> (color: RGB8) {
        neighbor_color(data)
    }
}

} // verus!
