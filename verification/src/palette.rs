//! The colours the simulation hands to a renderer, by name.
//!
//! The library decides which colour goes where; what a colour looks like on
//! screen is the renderer's business.

use crate::dice::draw_below;
use rand::rngs::ThreadRng;
use vstd::prelude::*;

verus! {

/// A named colour.
#[derive(Copy, Clone, PartialEq, Eq, Structural, Debug)]
pub enum Hue {
    Red,
    Blue,
    Yellow,
    Purple,
    Orange,
    Green,
    Brown,
    DarkGreen,
    DarkBlue,
}

/// A colour as shown: a hue, at full strength or faded towards white.
#[derive(Copy, Clone, PartialEq, Eq, Structural, Debug)]
pub struct Paint {
    pub hue: Hue,
    pub faded: bool,
}

impl Paint {
    /// The hue at full strength.
    pub open spec fn solid(hue: Hue) -> Paint {
        Paint { hue, faded: false }
    }

    /// The hue faded towards white.
    pub open spec fn pale(hue: Hue) -> Paint {
        Paint { hue, faded: true }
    }
}

/// The body hue that a draw stands for.
pub open spec fn base_hue(n: u32) -> Hue {
    if n == 0 {
        Hue::Green
    } else if n == 1 {
        Hue::Blue
    } else if n == 2 {
        Hue::Brown
    } else if n == 3 {
        Hue::DarkGreen
    } else {
        Hue::DarkBlue
    }
}

/// The gradient of a fresh eel with the given body hue: solid at the head,
/// pale at the tail.
pub open spec fn gradient_of(hue: Hue) -> (Paint, Paint) {
    (Paint::solid(hue), Paint::pale(hue))
}

/// Whether `g` is the gradient of a fresh eel in one of the five body hues.
pub open spec fn is_start_gradient(g: (Paint, Paint)) -> bool {
    exists|n: u32| n < 5 && g == gradient_of(#[trigger] base_hue(n))
}

/// The gradient of a fresh eel for a draw: 0 to 3 are green, blue, brown and
/// dark green, anything else is dark blue.
pub fn gradient_from_draw(n: u32) -> (g: (Paint, Paint))
    ensures
        g == gradient_of(base_hue(n)),
{
    let base = match n {
        0 => Hue::Green,
        1 => Hue::Blue,
        2 => Hue::Brown,
        3 => Hue::DarkGreen,
        _ => Hue::DarkBlue,
    };
    (Paint { hue: base, faded: false }, Paint { hue: base, faded: true })
}

/// Picks the gradient of a fresh eel at random among the five body hues.
pub fn random_eel_gradient(rng: &mut ThreadRng) -> (g: (Paint, Paint))
    ensures
        is_start_gradient(g),
{
    let n = draw_below(rng, 5);
    let g = gradient_from_draw(n);
    assert(g == gradient_of(base_hue(n)));
    g
}

} // verus!
