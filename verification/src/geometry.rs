//! Rectangles, and the entities made of them.

use vstd::prelude::*;
use crate::config::COLLISION_MARGIN;
use crate::units::{displace, displaced, sat, saturate};

verus! {

/// An axis-aligned rectangle. `(x, y)` is its top-left corner, and `y` grows downward.
#[derive(Clone, Copy, Debug, PartialEq, Eq)]
pub struct Rect {
    pub x: i64,
    pub y: i64,
    pub w: i64,
    pub h: i64,
}

/// A velocity: the distance covered per millisecond along each axis.
#[derive(Clone, Copy, Debug, PartialEq, Eq)]
pub struct Vec2 {
    pub x: i64,
    pub y: i64,
}

impl Rect {
    /// The x-coordinate of the right edge.
    pub open spec fn right(self) -> int {
        self.x + self.w
    }

    /// The y-coordinate of the lower edge.
    pub open spec fn bottom(self) -> int {
        self.y + self.h
    }

    /// The width of the region that both rectangles cover; zero or less where there is none.
    pub open spec fn shared_width(self, other: Rect) -> int {
        vstd::math::min(self.right(), other.right()) - vstd::math::max(self.x as int, other.x as int)
    }

    /// The height of the region that both rectangles cover; zero or less where there is none.
    pub open spec fn shared_height(self, other: Rect) -> int {
        vstd::math::min(self.bottom(), other.bottom()) - vstd::math::max(
            self.y as int,
            other.y as int,
        )
    }

    /// Two rectangles overlap when the region they share has an area greater than zero.
    pub open spec fn spec_overlaps(&self, other: &Rect) -> bool {
        self.shared_width(*other) > 0 && self.shared_height(*other) > 0
    }

    /// The rectangle with `margin` taken off on every side.
    pub open spec fn inset(self, margin: int) -> Rect {
        Rect {
            x: sat(self.x + margin),
            y: sat(self.y + margin),
            w: sat(self.w - 2 * margin),
            h: sat(self.h - 2 * margin),
        }
    }

    /// Whether the two rectangles share a region of nonzero area.
    #[verifier::when_used_as_spec(spec_overlaps)]
    pub fn overlaps(&self, other: &Rect) -> (r: bool)
        ensures
            r == self.spec_overlaps(other),
    {
        let right_a: i128 = self.x as i128 + self.w as i128;
        let right_b: i128 = other.x as i128 + other.w as i128;
        let bottom_a: i128 = self.y as i128 + self.h as i128;
        let bottom_b: i128 = other.y as i128 + other.h as i128;
        let left: i128 = if self.x >= other.x { self.x as i128 } else { other.x as i128 };
        let right: i128 = if right_a <= right_b { right_a } else { right_b };
        let top: i128 = if self.y >= other.y { self.y as i128 } else { other.y as i128 };
        let bottom: i128 = if bottom_a <= bottom_b { bottom_a } else { bottom_b };
        left < right && top < bottom
    }
}

/// Something in the world with a place and a size.
#[derive(Clone, Copy, Debug, PartialEq, Eq)]
pub struct GameEntity {
    pub rect: Rect,
}

impl GameEntity {
    /// The rectangle used for collision tests: the entity's own, inset by
    /// `COLLISION_MARGIN` on every side.
    pub open spec fn collision_bounds(self) -> Rect {
        self.rect.inset(COLLISION_MARGIN as int)
    }

    /// Two entities touch when their collision rectangles overlap.
    pub open spec fn spec_touches(&self, other: &GameEntity) -> bool {
        self.collision_bounds().spec_overlaps(&other.collision_bounds())
    }

    /// The rectangle used for collision tests. It is never drawn.
    pub fn get_collision_bounds(&self) -> (bounds: Rect)
        ensures
            bounds == self.collision_bounds(),
    {
        Rect {
            x: saturate(self.rect.x as i128 + COLLISION_MARGIN as i128),
            y: saturate(self.rect.y as i128 + COLLISION_MARGIN as i128),
            w: saturate(self.rect.w as i128 - 2 * (COLLISION_MARGIN as i128)),
            h: saturate(self.rect.h as i128 - 2 * (COLLISION_MARGIN as i128)),
        }
    }

    /// Whether the collision rectangles of the two entities overlap.
    #[verifier::when_used_as_spec(spec_touches)]
    pub fn touches(&self, other: &GameEntity) -> (r: bool)
        ensures
            r == self.spec_touches(other),
    {
        self.get_collision_bounds().overlaps(&other.get_collision_bounds())
    }
}

/// An entity with a velocity.
#[derive(Clone, Copy, Debug, PartialEq, Eq)]
pub struct MovingGameEntity {
    pub entity: GameEntity,
    pub velocity: Vec2,
}

impl MovingGameEntity {
    /// The entity after moving at its velocity for `dt` milliseconds.
    pub open spec fn moved(self, dt: int) -> MovingGameEntity {
        MovingGameEntity {
            entity: GameEntity {
                rect: Rect {
                    x: displaced(self.entity.rect.x, self.velocity.x, dt),
                    y: displaced(self.entity.rect.y, self.velocity.y, dt),
                    w: self.entity.rect.w,
                    h: self.entity.rect.h,
                },
            },
            velocity: self.velocity,
        }
    }

    /// Advances the position by the velocity times `delta_time` milliseconds.
    pub fn apply_velocity(&mut self, delta_time: u32)
        ensures
            *final(self) == old(self).moved(delta_time as int),
    {
        self.entity.rect.x = displace(self.entity.rect.x, self.velocity.x, delta_time);
        self.entity.rect.y = displace(self.entity.rect.y, self.velocity.y, delta_time);
    }
}

} // verus!
