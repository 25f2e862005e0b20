//! Kinds of food and what each is worth.

use crate::dice::draw_below;
use crate::palette::{Hue, Paint};
use rand::rngs::ThreadRng;
use vstd::prelude::*;

verus! {

/// The five kinds of food.
#[derive(Copy, Clone, PartialEq, Eq, Structural, Debug)]
pub enum FoodType {
    Red,
    Blue,
    Yellow,
    Purple,
    Orange,
}

impl FoodType {
    /// The number of cells the eel grows by after eating this kind.
    pub open spec fn reward(self) -> nat {
        match self {
            FoodType::Red => 1,
            FoodType::Blue => 2,
            FoodType::Yellow => 3,
            FoodType::Purple => 4,
            FoodType::Orange => 5,
        }
    }

    /// The colour this kind is drawn in, and that the eel's head takes on
    /// after eating it.
    pub open spec fn paint(self) -> Paint {
        Paint::solid(
            match self {
                FoodType::Red => Hue::Red,
                FoodType::Blue => Hue::Blue,
                FoodType::Yellow => Hue::Yellow,
                FoodType::Purple => Hue::Purple,
                FoodType::Orange => Hue::Orange,
            },
        )
    }

    /// The kind that a draw stands for.
    pub open spec fn of_draw(n: u32) -> FoodType {
        if n == 0 {
            FoodType::Red
        } else if n == 1 {
            FoodType::Blue
        } else if n == 2 {
            FoodType::Yellow
        } else if n == 3 {
            FoodType::Purple
        } else {
            FoodType::Orange
        }
    }

    /// The colour of this kind.
    pub fn color(self) -> (p: Paint)
        ensures
            p == self.paint(),
    {
        let hue = match self {
            FoodType::Red => Hue::Red,
            FoodType::Blue => Hue::Blue,
            FoodType::Yellow => Hue::Yellow,
            FoodType::Purple => Hue::Purple,
            FoodType::Orange => Hue::Orange,
        };
        Paint { hue, faded: false }
    }

    /// The growth reward of this kind, from 1 for red to 5 for orange.
    pub fn length(self) -> (n: usize)
        ensures
            n == self.reward(),
            1 <= n <= 5,
    {
        match self {
            FoodType::Red => 1,
            FoodType::Blue => 2,
            FoodType::Yellow => 3,
            FoodType::Purple => 4,
            FoodType::Orange => 5,
        }
    }

    /// Turns a draw into a kind: 0 to 3 are red, blue, yellow and purple,
    /// anything else is orange.
    pub fn from_draw(n: u32) -> (kind: FoodType)
        ensures
            kind == FoodType::of_draw(n),
    {
        match n {
            0 => FoodType::Red,
            1 => FoodType::Blue,
            2 => FoodType::Yellow,
            3 => FoodType::Purple,
            _ => FoodType::Orange,
        }
    }

    /// Picks a kind at random, each of the five alike.
    pub fn random(rng: &mut ThreadRng) -> (kind: FoodType)
        ensures
            exists|n: u32| n < 5 && kind == #[trigger] FoodType::of_draw(n),
    {
        let n = draw_below(rng, 5);
        let kind = FoodType::from_draw(n);
        assert(kind == FoodType::of_draw(n));
        kind
    }
}

} // verus!
