//! Colors and the recompute cycle.
//!
//! Every color that flows through the system carries mod-2 channel values:
//! the recompute cycle is a ripple-carry increment in modulo-2 arithmetic, so
//! a channel is always 0 or 1.

use vstd::prelude::*;

verus! {

/// An RGBA color. Each channel is a mod-2 value: 0 or 1.
#[derive(Clone, Copy, PartialEq, Eq, Structural, Debug)]
pub struct Rgba {
    pub r: u8,
    pub g: u8,
    pub b: u8,
    pub a: u8,
}

impl Rgba {
    /// Every channel is a mod-2 value.
    pub open spec fn wf(self) -> bool {
        self.r <= 1 && self.g <= 1 && self.b <= 1 && self.a <= 1
    }
}

/// The pair a recompute task produces: a new fill color and a new clear color,
/// made once per task and applied at most once.
#[derive(Clone, Copy, PartialEq, Eq, Structural, Debug)]
pub struct ColorUpdate {
    pub color: Rgba,
    pub background: Rgba,
}

impl ColorUpdate {
    /// Both colors of the pair are well formed.
    pub open spec fn wf(self) -> bool {
        self.color.wf() && self.background.wf()
    }
}

/// Blue channel plus one: the lowest stage of the ripple-carry increment.
pub open spec fn blue_sum(seed: Rgba) -> int {
    seed.b + 1
}

/// Green channel plus the carry out of the blue stage.
pub open spec fn green_sum(seed: Rgba) -> int {
    seed.g + if blue_sum(seed) > 1 { 1int } else { 0int }
}

/// Red channel plus the carry out of the green stage.
pub open spec fn red_sum(seed: Rgba) -> int {
    seed.r + if green_sum(seed) > 1 { 1int } else { 0int }
}

/// The pair a recompute task derives from its seed: each channel of the fill
/// color is its ripple-carry sum reduced mod 2, and the clear color is the
/// fill color phase-shifted by one on every channel.
pub open spec fn recompute_spec(seed: Rgba) -> ColorUpdate {
    ColorUpdate {
        color: Rgba {
            r: (red_sum(seed) % 2) as u8,
            g: (green_sum(seed) % 2) as u8,
            b: (blue_sum(seed) % 2) as u8,
            a: 1,
        },
        background: Rgba {
            r: ((red_sum(seed) + 1) % 2) as u8,
            g: ((green_sum(seed) + 1) % 2) as u8,
            b: ((blue_sum(seed) + 1) % 2) as u8,
            a: 1,
        },
    }
}

/// The computation at the heart of a recompute task: a ripple-carry increment
/// of the seed's channels in modulo-2 arithmetic. The blue channel gains one;
/// each further channel gains the carry of the one below; the clear color is
/// the fill color with every channel flipped. Deterministic in the seed alone.
pub fn recompute_colors(seed: Rgba) -> (u: ColorUpdate)
    requires
        seed.wf(),
    ensures
        u == recompute_spec(seed),
        u.wf(),
{
    let b1: u8 = seed.b + 1;
    let g1: u8 = seed.g + if b1 > 1 { 1 } else { 0 };
    let r1: u8 = seed.r + if g1 > 1 { 1 } else { 0 };
    ColorUpdate {
        color: Rgba { r: r1 % 2, g: g1 % 2, b: b1 % 2, a: 1 },
        background: Rgba { r: (r1 + 1) % 2, g: (g1 + 1) % 2, b: (b1 + 1) % 2, a: 1 },
    }
}

} // verus!
