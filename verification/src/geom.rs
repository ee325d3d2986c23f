//! Room coordinates and the range metric the policy and executor use.
//!
//! Ranges follow the host's board metric: the distance between two tiles is
//! the Chebyshev distance (diagonal steps count as one), and a unit is "near"
//! a target when it stands at range one or less.

use vstd::prelude::*;

verus! {

/// A tile position inside a single room.
#[derive(Clone, Copy, PartialEq, Eq, Structural, Debug)]
pub struct Pos {
    pub x: u32,
    pub y: u32,
}

/// Absolute difference of two coordinates, as a mathematical integer.
pub open spec fn abs_diff(a: int, b: int) -> int {
    if a >= b {
        a - b
    } else {
        b - a
    }
}

/// Chebyshev distance between two positions.
pub open spec fn spec_range(a: Pos, b: Pos) -> int {
    let dx = abs_diff(a.x as int, b.x as int);
    let dy = abs_diff(a.y as int, b.y as int);
    if dx >= dy {
        dx
    } else {
        dy
    }
}

impl Pos {
    pub fn new(x: u32, y: u32) -> (p: Pos)
        ensures
            p.x == x,
            p.y == y,
    {
        Pos { x, y }
    }

    /// Board distance to another tile.
    pub fn range_to(&self, other: &Pos) -> (r: u32)
        ensures
            r == spec_range(*self, *other),
    {
        let dx = if self.x >= other.x {
            self.x - other.x
        } else {
            other.x - self.x
        };
        let dy = if self.y >= other.y {
            self.y - other.y
        } else {
            other.y - self.y
        };
        if dx >= dy {
            dx
        } else {
            dy
        }
    }

    /// Whether the target is adjacent (or on the same tile).
    pub fn is_near_to(&self, other: &Pos) -> (r: bool)
        ensures
            r <==> spec_range(*self, *other) <= 1,
    {
        self.range_to(other) <= 1
    }

    /// Whether two positions name the same tile.
    pub fn is_equal_to(&self, other: &Pos) -> (r: bool)
        ensures
            r <==> *self == *other,
    {
        self.x == other.x && self.y == other.y
    }

    /// A stable key for this tile, used where state is kept per position.
    pub fn key(&self) -> (k: u64)
        ensures
            k == spec_pos_key(*self),
    {
        (self.x as u64) * 0x1_0000 + (self.y as u64)
    }
}

/// The key `Pos::key` returns: distinct tiles of one room map to distinct
/// keys because coordinates stay far below the stride.
pub open spec fn spec_pos_key(p: Pos) -> u64 {
    ((p.x as int) * 0x1_0000 + (p.y as int)) as u64
}

/// Distinct positions with in-room coordinates get distinct keys.
pub proof fn lemma_pos_key_injective(a: Pos, b: Pos)
    requires
        a.y < 0x1_0000,
        b.y < 0x1_0000,
        spec_pos_key(a) == spec_pos_key(b),
    ensures
        a == b,
{
    assert((a.x as int) * 0x1_0000 + (a.y as int) < 0x1_0000_0000_0000_0000);
    assert((b.x as int) * 0x1_0000 + (b.y as int) < 0x1_0000_0000_0000_0000);
    assert(a.x == b.x && a.y == b.y) by (nonlinear_arith)
        requires
            a.y < 0x1_0000,
            b.y < 0x1_0000,
            (a.x as int) * 0x1_0000 + (a.y as int) == (b.x as int) * 0x1_0000 + (b.y as int),
    ;
}

} // verus!
