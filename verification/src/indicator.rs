//! The indicator's colour cycle.

use vstd::prelude::*;

verus! {

/// A colour of the indicator. The three colours form one cycle:
/// red, yellow, blue, and red again.
#[derive(Clone, Copy, PartialEq, Eq, Debug, Structural)]
pub enum LedColor {
    Red,
    Yellow,
    Blue,
}

impl LedColor {
    /// Place of the colour in the cycle: 0 for red, 1 for yellow, 2 for blue.
    pub open spec fn position(self) -> nat {
        match self {
            LedColor::Red => 0,
            LedColor::Yellow => 1,
            LedColor::Blue => 2,
        }
    }

    /// The colour whose place is `k` modulo 3.
    pub open spec fn at(k: nat) -> LedColor {
        if k % 3 == 0 {
            LedColor::Red
        } else if k % 3 == 1 {
            LedColor::Yellow
        } else {
            LedColor::Blue
        }
    }

    /// The colour reached from this one after `n` steps round the cycle.
    pub open spec fn advanced(self, n: nat) -> LedColor {
        LedColor::at(self.position() + n)
    }

    /// The colour that follows this one.
    pub open spec fn successor(self) -> LedColor {
        self.advanced(1)
    }

    /// The colour that this one follows.
    pub open spec fn predecessor(self) -> LedColor {
        self.advanced(2)
    }

    /// The colour in which the cycle starts.
    pub fn first() -> (color: LedColor)
        ensures
            color == LedColor::Red,
            color == LedColor::at(0),
    {
        LedColor::Red
    }

    /// Steps to the following colour.
    pub fn next(self) -> (color: LedColor)
        ensures
            color == self.successor(),
    {
        match self {
            LedColor::Red => LedColor::Yellow,
            LedColor::Yellow => LedColor::Blue,
            LedColor::Blue => LedColor::Red,
        }
    }

    /// Steps back to the preceding colour.
    pub fn previous(self) -> (color: LedColor)
        ensures
            color == self.predecessor(),
    {
        match self {
            LedColor::Red => LedColor::Blue,
            LedColor::Yellow => LedColor::Red,
            LedColor::Blue => LedColor::Yellow,
        }
    }

    /// Place of the colour in the cycle.
    pub fn index(self) -> (i: u8)
        ensures
            i == self.position(),
    {
        match self {
            LedColor::Red => 0,
            LedColor::Yellow => 1,
            LedColor::Blue => 2,
        }
    }

    /// The colour that the cycle has reached after `edges` steps from red.
    pub fn after_edges(edges: u64) -> (color: LedColor)
        ensures
            color == LedColor::at(edges as nat),
            color == LedColor::Red.advanced(edges as nat),
            color.position() == edges % 3,
    {
        let place: u64 = edges % 3;
        if place == 0 {
            LedColor::Red
        } else if place == 1 {
            LedColor::Yellow
        } else {
            LedColor::Blue
        }
    }
}

/// Every colour has one successor and one predecessor, neither is the colour
/// itself, and three steps lead back to where they began.
pub proof fn lemma_cycle(color: LedColor)
    ensures
        LedColor::at(color.position()) == color,
        color.successor() != color,
        color.successor().position() == (color.position() + 1) % 3,
        color.successor().predecessor() == color,
        color.predecessor().successor() == color,
        color.successor().successor().successor() == color,
{
}

/// Stepping `m` times and then `n` times is stepping `m + n` times, and the
/// place reached is the sum of the place left and the steps, modulo 3.
pub proof fn lemma_advanced(color: LedColor, m: nat, n: nat)
    ensures
        color.advanced(0) == color,
        color.advanced(m).advanced(n) == color.advanced(m + n),
        color.advanced(m).successor() == color.advanced(m + 1),
        color.advanced(n).position() == (color.position() + n) % 3,
        LedColor::Red.advanced(n) == LedColor::at(n),
{
}

} // verus!
