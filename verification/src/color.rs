//! Colors in thousandths per channel, and the emissive oscillation that makes
//! screen surfaces pulse: the sine of a phase, remapped from [-1, 1] to [0, 1]
//! and scaled by twice the original emissive color.

use vstd::prelude::*;

verus! {

/// The largest channel value a stored color may hold (1000.0 in world terms),
/// which keeps the oscillation arithmetic inside 64 bits.
pub const CHANNEL_MAX_MILLI: u64 = 1000000;

/// An RGB color with channels in thousandths.
#[derive(Clone, Copy, Debug, PartialEq, Eq, Structural)]
pub struct Rgb {
    pub red: u64,
    pub green: u64,
    pub blue: u64,
}

impl Rgb {
    /// Builds a color from milli-scaled channels.
    pub fn new(red: u64, green: u64, blue: u64) -> (c: Rgb)
        ensures
            c == (Rgb { red, green, blue }),
    {
        Rgb { red, green, blue }
    }

    /// Every channel within the stored bound.
    pub open spec fn wf(self) -> bool {
        &&& self.red <= CHANNEL_MAX_MILLI
        &&& self.green <= CHANNEL_MAX_MILLI
        &&& self.blue <= CHANNEL_MAX_MILLI
    }
}

/// The fixed highlight color an interacted console is repainted with: pure red.
pub open spec fn highlight_color() -> Rgb {
    Rgb { red: 1000, green: 0, blue: 0 }
}

/// Builds the highlight color.
pub fn make_highlight_color() -> (c: Rgb)
    ensures
        c == highlight_color(),
        c.wf(),
{
    Rgb { red: 1000, green: 0, blue: 0 }
}

/// One channel of the oscillation: `ch * 2 * (s/1000 + 1) / 2`, that is the
/// channel scaled by the sine remapped from [-1000, 1000] to [0, 2000]
/// thousandths.
pub open spec fn oscillated_channel(ch: int, s: int) -> int {
    ch * (s + 1000) / 1000
}

/// Computes one oscillated channel.
pub fn oscillate_channel(ch: u64, s: i64) -> (o: u64)
    requires
        ch <= CHANNEL_MAX_MILLI,
        -1000 <= s <= 1000,
    ensures
        o == oscillated_channel(ch as int, s as int),
        o <= 2 * ch,
        s == 1000 ==> o == 2 * ch,
{
    let t: u64 = (s + 1000) as u64;
    proof {
        lemma_oscillation_bounds(ch as int, s as int);
        assert(ch * t <= ch * 2000) by (nonlinear_arith)
            requires
                0 <= ch,
                t <= 2000,
        ;
    }
    (ch * t) / 1000
}

/// The oscillated emissive stays within [0, 2x the original channel], and
/// attains that upper bound exactly when the sine reaches its maximum.
pub proof fn lemma_oscillation_bounds(ch: int, s: int)
    requires
        0 <= ch <= CHANNEL_MAX_MILLI,
        -1000 <= s <= 1000,
    ensures
        0 <= oscillated_channel(ch, s) <= 2 * ch,
        s == 1000 ==> oscillated_channel(ch, s) == 2 * ch,
{
    let t = s + 1000;
    assert(0 <= ch * t <= ch * 2000) by (nonlinear_arith)
        requires
            0 <= ch,
            0 <= t <= 2000,
    ;
    vstd::arithmetic::div_mod::lemma_div_pos_is_pos(ch * t, 1000);
    vstd::arithmetic::div_mod::lemma_div_is_ordered(ch * t, ch * 2000, 1000);
    assert(ch * 2000 == 1000 * (2 * ch)) by (nonlinear_arith);
    vstd::arithmetic::div_mod::lemma_div_multiples_vanish(2 * ch, 1000);
}

/// The whole color oscillated by the sine value `s`.
pub open spec fn oscillated_color(c: Rgb, s: int) -> Rgb {
    Rgb {
        red: oscillated_channel(c.red as int, s) as u64,
        green: oscillated_channel(c.green as int, s) as u64,
        blue: oscillated_channel(c.blue as int, s) as u64,
    }
}

/// Computes the oscillated emissive color.
pub fn oscillate_color(c: &Rgb, s: i64) -> (o: Rgb)
    requires
        c.wf(),
        -1000 <= s <= 1000,
    ensures
        o == oscillated_color(*c, s as int),
        o.red <= 2 * c.red,
        o.green <= 2 * c.green,
        o.blue <= 2 * c.blue,
{
    proof {
        lemma_oscillation_bounds(c.red as int, s as int);
        lemma_oscillation_bounds(c.green as int, s as int);
        lemma_oscillation_bounds(c.blue as int, s as int);
    }
    Rgb {
        red: oscillate_channel(c.red, s),
        green: oscillate_channel(c.green, s),
        blue: oscillate_channel(c.blue, s),
    }
}

} // verus!
