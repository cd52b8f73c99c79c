//! Collectibles: the start marker that opens wave zero and the upgrade
//! pickups offered between waves.

use vstd::prelude::*;

verus! {

use crate::config::POS_LIMIT;
use crate::geom::Rect;

/// What a collectible does when the player touches it.
#[derive(Clone, Copy, PartialEq, Eq, Structural, Debug)]
pub enum CollectibeKind {
    /// Touching it starts the first wave.
    StartCube,
    /// More maximum health.
    Maxhp,
    /// One more bullet per shot, wider jitter, less per-shot damage.
    Projectile,
    /// Bigger bullets.
    Size,
    /// More damage, slower bullets.
    Slowdmg,
    /// Faster movement.
    Speed,
    /// Reserved; currently without effect.
    Backshot,
}

#[derive(Clone, Copy, PartialEq, Eq, Structural, Debug)]
pub struct Collectibe {
    /// Corner position in milli-pixels.
    pub x: i64,
    /// Corner position in milli-pixels.
    pub y: i64,
    /// Side of the square.
    pub size: i64,
    pub kind: CollectibeKind,
    /// Cleared when the collectible is picked up.
    pub should_exist: bool,
}

impl Collectibe {
    /// Bounds under which the hit box arithmetic stays in range.
    pub open spec fn wf(self) -> bool {
        &&& -POS_LIMIT <= self.x <= POS_LIMIT
        &&& -POS_LIMIT <= self.y <= POS_LIMIT
        &&& 0 <= self.size <= 1_000_000
    }

    /// The square the player must touch.
    pub open spec fn rect_spec(self) -> Rect {
        Rect { x: self.x, y: self.y, w: self.size, h: self.size }
    }

    /// The square the player must touch.
    pub fn get_rect(&self) -> (r: Rect)
        ensures
            r == self.rect_spec(),
    {
        Rect { x: self.x, y: self.y, w: self.size, h: self.size }
    }
}

} // verus!
