//! Integer positions and velocities, and exact distance comparisons.

use vstd::prelude::*;

verus! {

/// Where an actor stands, in whole world units.
#[derive(Clone, Copy, Debug, PartialEq, Eq, Structural)]
pub struct Position {
    pub x: i32,
    pub y: i32,
}

/// How fast a body moves, in world units per second.
#[derive(Clone, Copy, Debug, PartialEq, Eq, Structural)]
pub struct Velocity {
    pub x: i64,
    pub y: i64,
}

/// The square of an integer of at most 2^33 in magnitude is at most 2^66.
proof fn lemma_square_bound(d: int)
    requires
        -0x2_0000_0000 <= d <= 0x2_0000_0000,
    ensures
        0 <= d * d <= 0x4_0000_0000_0000_0000,
{
    assert(0 <= d * d <= 0x4_0000_0000_0000_0000) by (nonlinear_arith)
        requires
            -0x2_0000_0000 <= d <= 0x2_0000_0000,
    ;
}

/// A position that is closer than some range is within every range that is
/// at least as wide: an enemy whose attack range does not exceed its patrol
/// range attacks only what it would also pursue.
pub proof fn lemma_closer_means_within(a: Position, b: Position, inner: i32, outer: i32)
    requires
        inner <= outer,
        a.spec_closer_than(b, inner),
    ensures
        a.spec_within(b, outer),
{
    assert(inner * inner <= outer * outer) by (nonlinear_arith)
        requires
            0 < inner <= outer,
    ;
}

impl Position {
    /// The origin of the world.
    pub open spec fn spec_origin() -> Position {
        Position { x: 0, y: 0 }
    }

    /// The squared Euclidean distance between two positions.
    pub open spec fn distance_squared(self, other: Position) -> int {
        (self.x - other.x) * (self.x - other.x) + (self.y - other.y) * (self.y - other.y)
    }

    /// The distance between the two positions is at most `range`.
    pub open spec fn spec_within(self, other: Position, range: i32) -> bool {
        range >= 0 && self.distance_squared(other) <= range * range
    }

    /// The distance between the two positions is strictly below `range`.
    pub open spec fn spec_closer_than(self, other: Position, range: i32) -> bool {
        range > 0 && self.distance_squared(other) < range * range
    }

    /// The origin of the world.
    pub fn origin() -> (p: Position)
        ensures
            p == Position::spec_origin(),
    {
        Position { x: 0, y: 0 }
    }

    /// The squared distance to `other`, which always fits in 128 bits.
    pub fn squared_distance_to(self, other: Position) -> (d: i128)
        ensures
            d == self.distance_squared(other),
    {
        let dx: i128 = self.x as i128 - other.x as i128;
        let dy: i128 = self.y as i128 - other.y as i128;
        proof {
            lemma_square_bound(dx as int);
            lemma_square_bound(dy as int);
        }
        dx * dx + dy * dy
    }

    /// Whether `other` lies at distance `range` or less.
    pub fn within(self, other: Position, range: i32) -> (inside: bool)
        ensures
            inside == self.spec_within(other, range),
    {
        if range < 0 {
            return false;
        }
        let r: i128 = range as i128;
        proof {
            lemma_square_bound(r as int);
        }
        self.squared_distance_to(other) <= r * r
    }

    /// Whether `other` lies at a distance strictly below `range`.
    pub fn closer_than(self, other: Position, range: i32) -> (inside: bool)
        ensures
            inside == self.spec_closer_than(other, range),
    {
        if range <= 0 {
            return false;
        }
        let r: i128 = range as i128;
        proof {
            lemma_square_bound(r as int);
        }
        self.squared_distance_to(other) < r * r
    }
}

} // verus!
