//! Integer-grid vectors. World and profile coordinates are plain integers on
//! a grid whose physical size the caller chooses; exact rationals carry curve
//! samples before they are quantised back to the grid.

use vstd::prelude::*;

verus! {

use crate::num::{lemma_trunc_div_bound, trunc_div, trunc_div_i128};

/// A point or direction in the 2D profile plane.
#[derive(Clone, Copy, Debug, PartialEq, Eq, Structural)]
pub struct Vec2 {
    pub x: i64,
    pub y: i64,
}

/// A point or direction on the 3D integer grid.
#[derive(Clone, Copy, Debug, PartialEq, Eq, Structural)]
pub struct Vec3 {
    pub x: i64,
    pub y: i64,
    pub z: i64,
}

impl View for Vec2 {
    type V = (int, int);

    open spec fn view(&self) -> (int, int) {
        (self.x as int, self.y as int)
    }
}

impl View for Vec3 {
    type V = (int, int, int);

    open spec fn view(&self) -> (int, int, int) {
        (self.x as int, self.y as int, self.z as int)
    }
}

/// Both coordinates have magnitude at most b.
pub open spec fn fits2(v: Vec2, b: int) -> bool {
    &&& -b <= v.x <= b
    &&& -b <= v.y <= b
}

/// All three coordinates have magnitude at most b.
pub open spec fn fits3(v: Vec3, b: int) -> bool {
    &&& -b <= v.x <= b
    &&& -b <= v.y <= b
    &&& -b <= v.z <= b
}

impl Vec2 {
    pub fn new(x: i64, y: i64) -> (r: Vec2)
        ensures
            r.x == x,
            r.y == y,
    {
        Vec2 { x, y }
    }
}

impl Vec3 {
    pub fn new(x: i64, y: i64, z: i64) -> (r: Vec3)
        ensures
            r.x == x,
            r.y == y,
            r.z == z,
    {
        Vec3 { x, y, z }
    }

    /// Componentwise sum.
    pub fn add(self, o: Vec3) -> (r: Vec3)
        requires
            fits3(self, 0x2000_0000_0000_0000),
            fits3(o, 0x2000_0000_0000_0000),
        ensures
            r.x == self.x + o.x,
            r.y == self.y + o.y,
            r.z == self.z + o.z,
    {
        Vec3 { x: self.x + o.x, y: self.y + o.y, z: self.z + o.z }
    }

    /// Componentwise difference.
    pub fn sub(self, o: Vec3) -> (r: Vec3)
        requires
            fits3(self, 0x2000_0000_0000_0000),
            fits3(o, 0x2000_0000_0000_0000),
        ensures
            r.x == self.x - o.x,
            r.y == self.y - o.y,
            r.z == self.z - o.z,
    {
        Vec3 { x: self.x - o.x, y: self.y - o.y, z: self.z - o.z }
    }

    /// Projection onto the XZ plane: the Y coordinate is dropped.
    pub fn project_onto_xz(self) -> (r: Vec3)
        ensures
            r.x == self.x,
            r.y == 0,
            r.z == self.z,
    {
        Vec3 { x: self.x, y: 0, z: self.z }
    }
}

/// An exact rational point: the value (x / den, y / den, z / den).
/// Denominators are always positive; the fraction need not be reduced.
#[derive(Clone, Copy, Debug, PartialEq, Eq, Structural)]
pub struct RatVec3 {
    pub x: i128,
    pub y: i128,
    pub z: i128,
    pub den: i128,
}

/// The two rational points are equal as exact rationals
/// (cross-multiplication, denominators positive).
pub open spec fn rat_eq(a: RatVec3, b: RatVec3) -> bool {
    &&& a.den >= 1
    &&& b.den >= 1
    &&& a.x * b.den == b.x * a.den
    &&& a.y * b.den == b.y * a.den
    &&& a.z * b.den == b.z * a.den
}

/// The rational point is exactly the grid point p.
pub open spec fn rat_is(a: RatVec3, p: Vec3) -> bool {
    &&& a.den >= 1
    &&& a.x == p.x * a.den
    &&& a.y == p.y * a.den
    &&& a.z == p.z * a.den
}

impl RatVec3 {
    /// Quantise back to the grid, rounding each coordinate toward zero.
    pub fn to_vec3(&self) -> (r: Vec3)
        requires
            self.den >= 1,
            -(i64::MAX as int) * self.den <= self.x <= (i64::MAX as int) * self.den,
            -(i64::MAX as int) * self.den <= self.y <= (i64::MAX as int) * self.den,
            -(i64::MAX as int) * self.den <= self.z <= (i64::MAX as int) * self.den,
            self.x > i128::MIN,
            self.y > i128::MIN,
            self.z > i128::MIN,
        ensures
            r.x == trunc_div(self.x as int, self.den as int),
            r.y == trunc_div(self.y as int, self.den as int),
            r.z == trunc_div(self.z as int, self.den as int),
    {
        proof {
            lemma_trunc_div_bound(self.x as int, self.den as int, i64::MAX as int);
            lemma_trunc_div_bound(self.y as int, self.den as int, i64::MAX as int);
            lemma_trunc_div_bound(self.z as int, self.den as int, i64::MAX as int);
        }
        Vec3 {
            x: trunc_div_i128(self.x, self.den) as i64,
            y: trunc_div_i128(self.y, self.den) as i64,
            z: trunc_div_i128(self.z, self.den) as i64,
        }
    }
}

} // verus!
