//! Integer grid positions of schematic symbols and wires.

use vstd::prelude::*;

use crate::ltspice::Rotation;
use crate::text::{fmt_i32, int_rep};

verus! {

/// Truncating halving, as integer division in ordinary arithmetic rounds
/// toward zero.
pub open spec fn half_toward_zero(s: int) -> int {
    if s >= 0 {
        s / 2
    } else {
        -((-s) / 2)
    }
}

#[derive(Debug, Clone, Copy, PartialEq, Eq, Structural)]
pub struct Position {
    pub x: i32,
    pub y: i32,
}

impl Position {
    /// Renders the position as `x-y`.
    pub fn to_string(self) -> (r: String)
        ensures
            r@ == int_rep(self.x as int) + "-"@ + int_rep(self.y as int),
    {
        let mut out = fmt_i32(self.x);
        out.append("-");
        let ys = fmt_i32(self.y);
        out.append(ys.as_str());
        out
    }

    pub fn eq(self, other: &Position) -> (r: bool)
        ensures
            r == (self.x == other.x && self.y == other.y),
    {
        self.x == other.x && self.y == other.y
    }

    pub fn add(self, other: Position) -> (r: Position)
        requires
            i32::MIN <= self.x + other.x <= i32::MAX,
            i32::MIN <= self.y + other.y <= i32::MAX,
        ensures
            r.x == self.x + other.x,
            r.y == self.y + other.y,
    {
        Position { x: self.x + other.x, y: self.y + other.y }
    }

    pub fn subtract(self, other: Position) -> (r: Position)
        requires
            i32::MIN <= self.x - other.x <= i32::MAX,
            i32::MIN <= self.y - other.y <= i32::MAX,
        ensures
            r.x == self.x - other.x,
            r.y == self.y - other.y,
    {
        Position { x: self.x - other.x, y: self.y - other.y }
    }

    /// Rotates the position around the origin by a right-angle rotation.
    pub fn rotate(self, rotation: &Rotation) -> (r: Position)
        requires
            !(rotation is Zero) ==> self.x != i32::MIN && self.y != i32::MIN,
        ensures
            r == (match rotation {
                Rotation::Zero => self,
                Rotation::Ninety => Position { x: (-self.y) as i32, y: self.x },
                Rotation::OneEighty => Position { x: (-self.x) as i32, y: (-self.y) as i32 },
                Rotation::TwoSeventy => Position { x: self.y, y: (-self.x) as i32 },
            }),
    {
        match rotation {
            Rotation::Zero => self,
            Rotation::Ninety => Position { x: -self.y, y: self.x },
            Rotation::OneEighty => Position { x: -self.x, y: -self.y },
            Rotation::TwoSeventy => Position { x: self.y, y: -self.x },
        }
    }

    /// The midpoint of two positions, each coordinate halved toward zero.
    pub fn average(start: &Position, end: &Position) -> (r: Position)
        requires
            i32::MIN <= start.x + end.x <= i32::MAX,
            i32::MIN <= start.y + end.y <= i32::MAX,
        ensures
            r.x == half_toward_zero(start.x + end.x),
            r.y == half_toward_zero(start.y + end.y),
    {
        let sx: i32 = start.x + end.x;
        let sy: i32 = start.y + end.y;
        let hx: i32 = if sx >= 0 {
            sx / 2
        } else {
            -((-(sx as i64) / 2) as i32)
        };
        let hy: i32 = if sy >= 0 {
            sy / 2
        } else {
            -((-(sy as i64) / 2) as i32)
        };
        Position { x: hx, y: hy }
    }
}

} // verus!
