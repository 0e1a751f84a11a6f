//! An idle pattern: about once a second a spark lands on a key and lights
//! its neighbours; every key then loses brightness and gains saturation
//! cycle by cycle.

use crate::illuminator::data::{
    adjacency_recursion, adjacency_visits, hsv2rgb, hsv_color, lemma_visits_are_keys, Hsv,
    NO_NEIGHBOR, RGB8,
};
use crate::illuminator::illuminator::Illuminator;
use crate::keyboard_state::KeyboardState;
use crate::synth_engine::SynthState;
use vstd::prelude::*;

verus! {

/// Milliseconds between two sparks.
pub const SPARK_INTERVAL_MS: u32 = 1000;

/// Mathematical model of the mode.
pub struct Fireworks {
    /// Milliseconds since the start, wrapping around.
    pub total_time_ms: u32,
    /// Milliseconds since the last spark.
    pub idle_time_ms: u32,
    /// Colour of each key.
    pub keys: Seq<Hsv>,
}

/// The key a spark lands on at `total_time_ms`.
pub open spec fn spark_center(total_time_ms: u32) -> int {
    ((total_time_ms / 7) % 21) as int
}

/// The hue of a spark at `total_time_ms`: the low byte of the time.
pub open spec fn spark_hue(total_time_ms: u32) -> u8 {
    (total_time_ms % 0x100) as u8
}

/// The key a spark lands on.
pub open spec fn spark(hue: u8) -> Hsv {
    Hsv { hue, sat: 30, val: 255 }
}

/// A neighbour of the key a spark landed on.
pub open spec fn ember(hue: u8) -> Hsv {
    Hsv { hue, sat: 50, val: 127 }
}

/// The keys after the first `n` of `visits` each left an ember.
pub open spec fn glowing(keys: Seq<Hsv>, visits: Seq<(u8, u8)>, n: nat, hue: u8) -> Seq<Hsv>
    decreases n,
{
    if n == 0 {
        keys
    } else {
        let before = glowing(keys, visits, (n - 1) as nat, hue);
        let index = visits[n - 1].0 as int;
        if index < before.len() {
            before.update(index, ember(hue))
        } else {
            before
        }
    }
}

/// The keys after a spark at `total_time_ms`: the spark on its key, an
/// ember on each neighbour of that key.
pub open spec fn sparked(keys: Seq<Hsv>, total_time_ms: u32) -> Seq<Hsv> {
    let center = spark_center(total_time_ms);
    let hue = spark_hue(total_time_ms);
    let visits = adjacency_visits(NO_NEIGHBOR, center as u8, 0);
    glowing(keys.update(center, spark(hue)), visits, visits.len(), hue)
}

/// A key one cycle later: one step darker unless dark, two steps more
/// saturated unless fully saturated.
pub open spec fn cooled(key: Hsv) -> Hsv {
    Hsv {
        hue: key.hue,
        sat: if key.sat < 255 {
            (key.sat + 2) as u8
        } else {
            key.sat
        },
        val: if key.val > 0 {
            (key.val - 1) as u8
        } else {
            key.val
        },
    }
}

impl Fireworks {
    pub open spec fn wf(self) -> bool {
        self.keys.len() == 21
    }

    /// Whether a spark lands in the cycle that adds `delta_t_ms`.
    pub open spec fn sparks(self, delta_t_ms: u32) -> bool {
        self.idle_time_ms.wrapping_add(delta_t_ms) > SPARK_INTERVAL_MS
    }

    /// The keys of the cycle before they cool.
    pub open spec fn ignited(self, delta_t_ms: u32) -> Seq<Hsv> {
        if self.sparks(delta_t_ms) {
            sparked(self.keys, self.total_time_ms.wrapping_add(delta_t_ms))
        } else {
            self.keys
        }
    }

    /// Whether every key can cool: none is one step short of full
    /// saturation, where two steps more leave the range of a byte.
    pub open spec fn fits(self, delta_t_ms: u32) -> bool {
        forall|i: int| 0 <= i < 21 ==> (#[trigger] self.ignited(delta_t_ms)[i]).sat != 254
    }

    /// The mode one cycle of `delta_t_ms` milliseconds later.
    pub open spec fn updated(self, delta_t_ms: u32) -> Fireworks {
        Fireworks {
            total_time_ms: self.total_time_ms.wrapping_add(delta_t_ms),
            idle_time_ms: if self.sparks(delta_t_ms) {
                0
            } else {
                self.idle_time_ms.wrapping_add(delta_t_ms)
            },
            keys: Seq::new(21, |i: int| cooled(self.ignited(delta_t_ms)[i])),
        }
    }
}

fn ignite(keys: &mut [Hsv; 21], total_time_ms: u32)
    ensures
        final(keys)@ == sparked(old(keys)@, total_time_ms),
{
    let key_index: u32 = (total_time_ms / 7) % 21;
    let hue: u8 = (total_time_ms % 0x100) as u8;
    keys[key_index as usize] = Hsv { hue, sat: 30, val: 255 };
    let ghost start = keys@;

    let visits = adjacency_recursion(NO_NEIGHBOR, key_index as u8, 0);
    let mut k: usize = 0;
    while k < visits.len()
        invariant
            k <= visits.len(),
            key_index < 21,
            visits@ == adjacency_visits(NO_NEIGHBOR, key_index as u8, 0),
            keys@ == glowing(start, visits@, k as nat, hue),
        decreases visits.len() - k,
    {
        let (index, recurse_level) = visits[k];
        proof {
            lemma_visits_are_keys(NO_NEIGHBOR, key_index as u8, 0, 0, k as int);
        }
        keys[index as usize] = Hsv { hue, sat: 50, val: 127 };
        k += 1;
    }
}

fn can_cool(keys: &[Hsv; 21]) -> (fits: bool)
    ensures
        fits == forall|i: int| 0 <= i < 21 ==> (#[trigger] keys@[i]).sat != 254,
{
    let mut index: usize = 0;
    while index < 21
        invariant
            index <= 21,
            forall|i: int| 0 <= i < index ==> (#[trigger] keys@[i]).sat != 254,
        decreases 21 - index,
    {
        if keys[index].sat == 254 {
            return false;
        }
        index += 1;
    }
    true
}

pub struct FireworkPatternIlluminator {
    total_time_ms: u32,
    idle_time_ms: u32,
    keys: [Hsv; 21],
}

impl View for FireworkPatternIlluminator {
    type V = Fireworks;

    closed spec fn view(&self) -> Fireworks {
        Fireworks {
            total_time_ms: self.total_time_ms,
            idle_time_ms: self.idle_time_ms,
            keys: self.keys@,
        }
    }
}

impl FireworkPatternIlluminator {
    /// Clocks at zero, every key dark and without saturation.
    pub fn new() -> (illuminator: Self)
        ensures
            illuminator@.wf(),
            illuminator@.total_time_ms == 0,
            illuminator@.idle_time_ms == 0,
            forall|i: int|
                0 <= i < 21 ==> #[trigger] illuminator@.keys[i] == (Hsv { hue: 0, sat: 0, val: 0 }),
    {
        Self { total_time_ms: 0, idle_time_ms: 0, keys: [Hsv { hue: 0, sat: 0, val: 0 }; 21] }
    }

    /// The colour of key `key_index`.
    pub fn key(&self, key_index: usize) -> (key: Hsv)
        requires
            key_index < 21,
        ensures
            key == self@.keys[key_index as int],
    {
        self.keys[key_index]
    }

    /// There are 21 keys.
    pub proof fn lemma_wf(&self)
        ensures
            self@.wf(),
    {
    }
}

impl Illuminator for FireworkPatternIlluminator {
    open spec fn update_fits(
        &self,
        delta_t_ms: u32,
        keyboard_state: &KeyboardState,
        synth_state: &SynthState,
    ) -> bool {
        self@.fits(delta_t_ms)
    }

    fn can_update(
        &self,
        delta_t_ms: u32,
        keyboard_state: &KeyboardState,
        synth_state: &SynthState,
    ) -> (fits: bool) {
        let mut trial = self.keys;
        if self.idle_time_ms.wrapping_add(delta_t_ms) > SPARK_INTERVAL_MS {
            ignite(&mut trial, self.total_time_ms.wrapping_add(delta_t_ms));
        }
        assert(trial@ == self@.ignited(delta_t_ms));
        can_cool(&trial)
    }

    fn update(
        &mut self,
        delta_t_ms: u32,
        keyboard_state: &KeyboardState,
        synth_state: &SynthState,
    )
        ensures
            final(self)@ == old(self)@.updated(delta_t_ms),
    {
        self.total_time_ms = self.total_time_ms.wrapping_add(delta_t_ms);
        self.idle_time_ms = self.idle_time_ms.wrapping_add(delta_t_ms);

        if self.idle_time_ms > SPARK_INTERVAL_MS {
            self.idle_time_ms = 0;
            ignite(&mut self.keys, self.total_time_ms);
        }
        let ghost ignited = self.keys@;
        assert(ignited == old(self)@.ignited(delta_t_ms));

        let mut index: usize = 0;
        while index < 21
            invariant
                index <= 21,
                ignited.len() == 21,
                forall|i: int| 0 <= i < 21 ==> (#[trigger] ignited[i]).sat != 254,
                forall|i: int| 0 <= i < index ==> #[trigger] self.keys@[i] == cooled(ignited[i]),
                forall|i: int| index <= i < 21 ==> #[trigger] self.keys@[i] == ignited[i],
                self.total_time_ms == old(self)@.updated(delta_t_ms).total_time_ms,
                self.idle_time_ms == old(self)@.updated(delta_t_ms).idle_time_ms,
            decreases 21 - index,
        {
            let mut hsv = self.keys[index];
            if hsv.val > 0 {
                hsv.val -= 1;
            }
            if hsv.sat < 255 {
                hsv.sat += 2;
            }
            self.keys[index] = hsv;
            index += 1;
        }
        assert(self@.keys =~= old(self)@.updated(delta_t_ms).keys);
    }

    fn render(&mut self, leds: &mut [RGB8; 21])
        ensures
            final(self)@ == old(self)@,
            forall|i: int| 0 <= i < 21 ==> #[trigger] final(leds)@[i] == hsv_color(old(self)@.keys[i]),
    {
        let mut index: usize = 0;
        while index < 21
            invariant
                index <= 21,
                self@ == old(self)@,
                forall|i: int| 0 <= i < index ==> #[trigger] leds@[i] == hsv_color(self@.keys[i]),
            decreases 21 - index,
        {
            let hsv = &self.keys[index];

            leds[index] = hsv2rgb(*hsv);
            index += 1;
        }
    }
}

} // verus!
