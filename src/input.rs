//! What the held movement keys ask of the camera on a tick.
use vstd::prelude::*;

verus! {

/// The movement keys held during a tick.
#[derive(Copy, Clone, Debug, PartialEq, Eq, Structural)]
pub struct MoveKeys {
    pub forward: bool,
    pub back: bool,
    pub left: bool,
    pub right: bool,
    pub up: bool,
    pub down: bool,
    /// Either shift key.
    pub run: bool,
    /// Either control key.
    pub crawl: bool,
}

/// How fast the camera moves: running, crawling or at the normal pace.
#[derive(Copy, Clone, Debug, PartialEq, Eq, Structural)]
pub enum SpeedTier {
    Run,
    Crawl,
    Normal,
}

impl SpeedTier {
    /// Units per second, in tenths: 2, 0.1 and 0.5 units per second.
    pub open spec fn tenths(self) -> u32 {
        match self {
            SpeedTier::Run => 20,
            SpeedTier::Crawl => 1,
            SpeedTier::Normal => 5,
        }
    }

    pub fn speed_tenths(&self) -> (r: u32)
        ensures
            r == self.tenths(),
    {
        match self {
            SpeedTier::Run => 20,
            SpeedTier::Crawl => 1,
            SpeedTier::Normal => 5,
        }
    }
}

/// `1` when only the positive key is held, `-1` when only the negative one,
/// `0` otherwise.
pub open spec fn axis(positive: bool, negative: bool) -> int {
    (if positive { 1int } else { 0int }) - (if negative { 1int } else { 0int })
}

fn axis_value(positive: bool, negative: bool) -> (r: i8)
    ensures
        r == axis(positive, negative),
{
    let p: i8 = if positive { 1 } else { 0 };
    let n: i8 = if negative { 1 } else { 0 };
    p - n
}

impl MoveKeys {
    /// Running wins over crawling.
    pub open spec fn tier(self) -> SpeedTier {
        if self.run {
            SpeedTier::Run
        } else if self.crawl {
            SpeedTier::Crawl
        } else {
            SpeedTier::Normal
        }
    }

    pub fn speed_tier(&self) -> (r: SpeedTier)
        ensures
            r == self.tier(),
    {
        if self.run {
            SpeedTier::Run
        } else if self.crawl {
            SpeedTier::Crawl
        } else {
            SpeedTier::Normal
        }
    }

    /// The direction of motion in the camera's horizontal frame, before the
    /// turn by the camera's yaw: `x` towards the left, `y` up, `z` forward.
    /// Opposite keys cancel.
    pub fn direction(&self) -> (r: (i8, i8, i8))
        ensures
            r.0 == axis(self.left, self.right),
            r.1 == axis(self.up, self.down),
            r.2 == axis(self.forward, self.back),
    {
        (
            axis_value(self.left, self.right),
            axis_value(self.up, self.down),
            axis_value(self.forward, self.back),
        )
    }
}

} // verus!
