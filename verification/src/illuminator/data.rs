//! Colours, the helpers the animations share, and the neighbourhood of each key.

use vstd::prelude::*;

verus! {

/// Marks an unused slot in a key's list of neighbours.
pub const NO_NEIGHBOR: u8 = 255;

/// For each key, the keys that touch it on the board.
pub const ADJACENCY_BY_INDEX: [[u8; 6]; 21] = [
    [1, 12, 255, 255, 255, 255],
    [0, 2, 12, 11, 255, 255],
    [1, 3, 11, 255, 255, 255],
    [2, 4, 10, 255, 255, 255],
    [3, 5, 10, 9, 255, 255],
    [4, 6, 9, 8, 255, 255],
    [5, 7, 8, 255, 255, 255],
    [6, 255, 255, 255, 255, 255],
    [5, 6, 9, 18, 19, 255],
    [4, 5, 10, 8, 17, 18],
    [3, 4, 9, 16, 17, 255],
    [1, 2, 12, 14, 15, 255],
    [0, 1, 11, 13, 14, 255],
    [12, 14, 255, 255, 255, 255],
    [12, 11, 13, 15, 255, 255],
    [11, 14, 16, 255, 255, 255],
    [10, 15, 17, 255, 255, 255],
    [10, 9, 16, 18, 255, 255],
    [9, 8, 17, 19, 255, 255],
    [8, 18, 20, 255, 255, 255],
    [19, 255, 255, 255, 255, 255],
];

/// A colour with eight bits per channel.
#[derive(Clone, Copy, PartialEq, Eq, Structural, Debug)]
pub struct RGB8 {
    pub r: u8,
    pub g: u8,
    pub b: u8,
}

impl Default for RGB8 {
    /// Black.
    fn default() -> (color: Self)
        ensures
            color == black(),
    {
        RGB8 { r: 0, g: 0, b: 0 }
    }
}

/// All channels off.
pub open spec fn black() -> RGB8 {
    RGB8 { r: 0, g: 0, b: 0 }
}

/// A colour given by hue, saturation and value.
#[derive(Clone, Copy, PartialEq, Eq, Structural, Debug)]
pub struct Hsv {
    pub hue: u8,
    pub sat: u8,
    pub val: u8,
}

pub open spec fn min_of(a: u8, b: u8) -> u8 {
    if a < b {
        a
    } else {
        b
    }
}

pub open spec fn max_of(a: u8, b: u8) -> u8 {
    if a > b {
        a
    } else {
        b
    }
}

pub fn min(a: u8, b: u8) -> (m: u8)
    ensures
        m == min_of(a, b),
{
    if a < b {
        a
    } else {
        b
    }
}

pub fn max(a: u8, b: u8) -> (m: u8)
    ensures
        m == max_of(a, b),
{
    if a > b {
        a
    } else {
        b
    }
}

/// A colour packed into one word: red in the low byte, green above it, blue above that.
pub open spec fn packed(color: RGB8) -> u32 {
    (color.r + color.g * 0x100 + color.b * 0x1_0000) as u32
}

/// The colour held by the three low bytes of `data`.
pub open spec fn unpacked(data: u32) -> RGB8 {
    RGB8 {
        r: (data % 0x100) as u8,
        g: ((data / 0x100) % 0x100) as u8,
        b: ((data / 0x1_0000) % 0x100) as u8,
    }
}

/// One channel on the way from `from` to `to`, `percent` (at most 100) of the way along.
pub open spec fn blend(from: u8, to: u8, percent: u8) -> u8 {
    ((from * (100 - percent) + to * percent) / 100) as u8
}

/// The colour `percent` of the way from `from` to `to`; more than 100 percent counts as 100.
pub open spec fn faded(from: RGB8, to: RGB8, percent: u8) -> RGB8 {
    let p = min_of(percent, 100);
    RGB8 { r: blend(from.r, to.r, p), g: blend(from.g, to.g, p), b: blend(from.b, to.b, p) }
}

/// The colour a key shows for `color`: the octave keys, 0 to 7, show it at half brightness.
pub open spec fn dimmed(index: u8, color: RGB8) -> RGB8 {
    if index < 8 {
        RGB8 { r: color.r / 2, g: color.g / 2, b: color.b / 2 }
    } else {
        color
    }
}

/// Channel by channel the brighter of two colours.
pub open spec fn brightest(a: RGB8, b: RGB8) -> RGB8 {
    RGB8 { r: max_of(a.r, b.r), g: max_of(a.g, b.g), b: max_of(a.b, b.b) }
}

/// Packing a colour and unpacking the word gives the colour back.
pub proof fn lemma_unpacked_packed(color: RGB8)
    ensures
        unpacked(packed(color)) == color,
{
}

/// The ends of a blend are its two channels.
pub proof fn lemma_blend_ends(from: u8, to: u8)
    ensures
        blend(from, to, 0) == from,
        blend(from, to, 100) == to,
{
    assert(from * (100 - 0) + to * 0 == from * 100);
    assert(from * (100 - 100) + to * 100 == to * 100);
}

/// Fading by nothing keeps the first colour, fading all the way gives the second.
pub proof fn lemma_faded_ends(from: RGB8, to: RGB8, percent: u8)
    ensures
        faded(from, to, 0) == from,
        percent >= 100 ==> faded(from, to, percent) == to,
{
    lemma_blend_ends(from.r, to.r);
    lemma_blend_ends(from.g, to.g);
    lemma_blend_ends(from.b, to.b);
}

fn blend_channel(from: u8, to: u8, first_percent: u16, second_percent: u16) -> (channel: u8)
    requires
        first_percent + second_percent == 100,
    ensures
        channel == blend(from, to, second_percent as u8),
{
    assert(from * first_percent + to * second_percent <= 255 * 100) by (nonlinear_arith)
        requires
            first_percent + second_percent == 100,
            from <= 255,
            to <= 255,
            first_percent >= 0,
            second_percent >= 0,
    ;
    assert(from * first_percent >= 0 && to * second_percent >= 0) by (nonlinear_arith)
        requires
            first_percent >= 0,
            second_percent >= 0,
            from >= 0,
            to >= 0,
    ;
    assert(from * first_percent <= from * first_percent + to * second_percent);
    (((from as u16 * first_percent) + (to as u16 * second_percent)) / 100) as u8
}

/// A pixel animation: the colour of a pixel from the datum stored with it
/// and the time it has been running.
pub trait PixelAnimation {
    spec fn color(data: u32, duration: u32) -> RGB8;

    fn compute(data: u32, duration: u32) -> (color: RGB8)
        ensures
            color == Self::color(data, duration),
    ;
}

pub trait PixelHelpers: Sized {
    fn serialize(&self) -> u32;

    fn deserialize(data: u32) -> RGB8;

    fn fade(&self, to: RGB8, percent: u8) -> RGB8;

    fn set_led_color(&mut self, index: u8, color: RGB8) -> bool;
}

impl PixelHelpers for RGB8 {
    fn serialize(&self) -> (data: u32)
        ensures
            data == packed(*self),
    {
        let r: u32 = self.r as u32;
        let g: u32 = self.g as u32;
        let b: u32 = self.b as u32;
        let mut result: u32 = 0;

        result |= r;
        result |= g << 8;
        result |= b << 16;

        assert((0u32 | r | (g << 8) | (b << 16)) == r + g * 0x100 + b * 0x1_0000) by (bit_vector)
            requires
                r < 0x100,
                g < 0x100,
                b < 0x100,
        ;
        result
    }

    fn deserialize(data: u32) -> (color: RGB8)
        ensures
            color == unpacked(data),
    {
        assert(data & 0xFF == data % 0x100) by (bit_vector);
        assert((data >> 8) & 0xFF == (data / 0x100) % 0x100) by (bit_vector);
        assert((data >> 16) & 0xFF == (data / 0x1_0000) % 0x100) by (bit_vector);
        RGB8 {
            r: (data & 0xFF) as u8,
            g: ((data >> 8) & 0xFF) as u8,
            b: ((data >> 16) & 0xFF) as u8,
        }
    }

    fn fade(&self, to: RGB8, percent: u8) -> (color: RGB8)
        ensures
            color == faded(*self, to, percent),
    {
        let second_percent: u16 = min(percent, 100) as u16;
        let first_percent: u16 = 100 - second_percent;

        let r = blend_channel(self.r, to.r, first_percent, second_percent);
        let g = blend_channel(self.g, to.g, first_percent, second_percent);
        let b = blend_channel(self.b, to.b, first_percent, second_percent);

        RGB8 { r, g, b }
    }

    fn set_led_color(&mut self, index: u8, color: RGB8) -> (modified: bool)
        ensures
            *final(self) == brightest(*old(self), dimmed(index, color)),
            modified == (*final(self) != *old(self)),
    {
        let color_mod = if index < 8 {
            RGB8 { r: color.r / 2, g: color.g / 2, b: color.b / 2 }
        } else {
            color
        };

        let mut modified = false;

        if self.r < color_mod.r {
            self.r = color_mod.r;
            modified = true;
        }
        if self.g < color_mod.g {
            self.g = color_mod.g;
            modified = true;
        }
        if self.b < color_mod.b {
            self.b = color_mod.b;
            modified = true;
        }
        modified
    }
}

/// The colour that stands for `hsv` on the LEDs, in integer arithmetic.
///
/// The hue circle is cut into six parts of about 42 steps. Within a part
/// one channel holds the value, one holds the value taken down by the
/// saturation, and the third moves between the two with the hue.
pub open spec fn hsv_color(hsv: Hsv) -> RGB8 {
    let v = hsv.val as int;
    let s = hsv.sat as int;
    let f = ((hsv.hue * 2) % 85) * 3;
    let p = v * (255 - s) / 255;
    let q = v * (255 - (s * f) / 255) / 255;
    let t = v * (255 - (s * (255 - f)) / 255) / 255;
    if hsv.hue <= 42 {
        RGB8 { r: v as u8, g: t as u8, b: p as u8 }
    } else if hsv.hue <= 84 {
        RGB8 { r: q as u8, g: v as u8, b: p as u8 }
    } else if hsv.hue <= 127 {
        RGB8 { r: p as u8, g: v as u8, b: t as u8 }
    } else if hsv.hue <= 169 {
        RGB8 { r: p as u8, g: q as u8, b: v as u8 }
    } else if hsv.hue <= 212 {
        RGB8 { r: t as u8, g: p as u8, b: v as u8 }
    } else if hsv.hue <= 254 {
        RGB8 { r: v as u8, g: p as u8, b: q as u8 }
    } else {
        RGB8 { r: v as u8, g: t as u8, b: p as u8 }
    }
}

/// Without saturation every hue is a grey of the value.
pub proof fn lemma_hsv_color_grey(hue: u8, val: u8)
    ensures
        hsv_color(Hsv { hue, sat: 0, val }) == (RGB8 { r: val, g: val, b: val }),
{
    let v = val as int;
    let s = 0int;
    let f = ((hue * 2) % 85) * 3;
    assert(s * f == 0) by (nonlinear_arith)
        requires
            s == 0,
    ;
    assert(s * (255 - f) == 0) by (nonlinear_arith)
        requires
            s == 0,
    ;
    assert(v * (255 - s) / 255 == v);
    assert(v * (255 - (s * f) / 255) / 255 == v);
    assert(v * (255 - (s * (255 - f)) / 255) / 255 == v);
}

/// Without value every colour is black.
pub proof fn lemma_hsv_color_black(hue: u8, sat: u8)
    ensures
        hsv_color(Hsv { hue, sat, val: 0 }) == black(),
{
    let v = 0int;
    let s = sat as int;
    let f = ((hue * 2) % 85) * 3;
    let a = 255 - s;
    let b = 255 - (s * f) / 255;
    let c = 255 - (s * (255 - f)) / 255;
    assert(v * a == 0 && v * b == 0 && v * c == 0) by (nonlinear_arith)
        requires
            v == 0,
    ;
}

/// Calls `smart_leds::hsv::hsv2rgb`. That function computes the three
/// channels from hue, saturation and value by the integer formulas written
/// down in [`hsv_color`]; none of them leaves the range of its type, so the
/// call returns for every input.
#[verifier::external_body]
pub(crate) fn hsv2rgb(hsv: Hsv) -> (color: RGB8)
    ensures
        color == hsv_color(hsv),
{
    let rgb = smart_leds::hsv::hsv2rgb(
        smart_leds::hsv::Hsv { hue: hsv.hue, sat: hsv.sat, val: hsv.val },
    );
    RGB8 { r: rgb.r, g: rgb.g, b: rgb.b }
}

/// The key in `slot` of the neighbour list of key `index`.
pub open spec fn neighbor(index: u8, slot: int) -> u8 {
    ADJACENCY_BY_INDEX[index as int][slot]
}

/// The visits a walk makes from `slot` of key `index` on. Each neighbour
/// that is not the key the walk came from is visited with the current
/// level; while the level is above zero the walk goes on from that
/// neighbour one level lower before it turns to the next slot.
pub open spec fn visits_from(previous: u8, index: u8, level: u8, slot: nat) -> Seq<(u8, u8)>
    decreases level, 6 - slot,
{
    if slot >= 6 || index >= 21 {
        Seq::empty()
    } else {
        let next = neighbor(index, slot as int);
        let rest = visits_from(previous, index, level, slot + 1);
        if next != NO_NEIGHBOR && next != previous {
            let deeper = if level > 0 {
                visits_from(index, next, (level - 1) as u8, 0)
            } else {
                Seq::empty()
            };
            seq![(next, level)] + deeper + rest
        } else {
            rest
        }
    }
}

/// The visits of a walk over the neighbourhood of key `index`, in order:
/// pairs of the key visited and the level it was visited at.
pub open spec fn adjacency_visits(previous: u8, index: u8, level: u8) -> Seq<(u8, u8)> {
    visits_from(previous, index, level, 0)
}

/// Every slot of the neighbour table holds a key or the empty mark.
pub proof fn lemma_neighbors_are_keys(index: u8, slot: int)
    requires
        index < 21,
        0 <= slot < 6,
    ensures
        neighbor(index, slot) < 21 || neighbor(index, slot) == NO_NEIGHBOR,
{
}

/// A walk visits keys only, and at no level above the one it started at.
pub proof fn lemma_visits_are_keys(previous: u8, index: u8, level: u8, slot: nat, k: int)
    requires
        0 <= k < visits_from(previous, index, level, slot).len(),
    ensures
        visits_from(previous, index, level, slot)[k].0 < 21,
        visits_from(previous, index, level, slot)[k].1 <= level,
    decreases level, 6 - slot,
{
    if slot < 6 && index < 21 {
        let next = neighbor(index, slot as int);
        let rest = visits_from(previous, index, level, slot + 1);
        lemma_neighbors_are_keys(index, slot as int);
        if next != NO_NEIGHBOR && next != previous {
            let deeper = if level > 0 {
                visits_from(index, next, (level - 1) as u8, 0)
            } else {
                Seq::empty()
            };
            if k == 0 {
            } else if k < 1 + deeper.len() {
                lemma_visits_are_keys(index, next, (level - 1) as u8, 0, k - 1);
            } else {
                lemma_visits_are_keys(previous, index, level, slot + 1, k - 1 - deeper.len());
            }
        } else {
            lemma_visits_are_keys(previous, index, level, slot + 1, k);
        }
    }
}

fn collect_visits(previous_index: u8, index: u8, recurse_level: u8, visits: &mut Vec<(u8, u8)>)
    requires
        index < 21,
    ensures
        final(visits)@ == old(visits)@ + adjacency_visits(previous_index, index, recurse_level),
    decreases recurse_level,
{
    let ghost all = visits@ + adjacency_visits(previous_index, index, recurse_level);
    let mut i: usize = 0;
    while i < 6
        invariant
            i <= 6,
            index < 21,
            visits@ + visits_from(previous_index, index, recurse_level, i as nat) == all,
        decreases 6 - i,
    {
        let ghost before = visits@;
        let ghost rest = visits_from(previous_index, index, recurse_level, (i + 1) as nat);
        let neighbor = ADJACENCY_BY_INDEX[index as usize][i];
        if neighbor != NO_NEIGHBOR && neighbor != previous_index {
            proof {
                lemma_neighbors_are_keys(index, i as int);
            }
            visits.push((neighbor, recurse_level));
            if recurse_level > 0 {
                collect_visits(index, neighbor, recurse_level - 1, visits);
                assert(visits@ + rest =~= before + (seq![(neighbor, recurse_level)]
                    + visits_from(index, neighbor, (recurse_level - 1) as u8, 0) + rest));
            } else {
                assert(visits@ + rest =~= before + (seq![(neighbor, recurse_level)]
                    + Seq::empty() + rest));
            }
        }
        i += 1;
    }
    assert(visits@ + Seq::<(u8, u8)>::empty() =~= visits@);
}

/// Walks the neighbourhood of key `index` and returns its visits in order.
///
/// Every neighbour of `index` but `previous_index` is visited with
/// `recurse_level`; while the level is above zero the walk continues from
/// each visited key, one level lower, and does not step back to the key it
/// came from.
pub fn adjacency_recursion(previous_index: u8, index: u8, recurse_level: u8) -> (visits: Vec<
    (u8, u8),
>)
    requires
        index < 21,
    ensures
        visits@ == adjacency_visits(previous_index, index, recurse_level),
{
    let mut visits: Vec<(u8, u8)> = Vec::new();
    collect_visits(previous_index, index, recurse_level, &mut visits);
    assert(Seq::<(u8, u8)>::empty() + adjacency_visits(previous_index, index, recurse_level)
        =~= adjacency_visits(previous_index, index, recurse_level));
    visits
}

} // verus!
