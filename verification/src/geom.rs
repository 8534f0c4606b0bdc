//! Small exact-rational vector types used for positions, sizes and tints.
use vstd::prelude::*;

use crate::rational::Rat;
use crate::rational::RatV;

verus! {

/// The mathematical value of a [`Vec2`].
pub struct Vec2V {
    pub x: RatV,
    pub y: RatV,
}

/// A pair of rational scalars: a position or a size.
#[derive(Clone, Copy, Debug, PartialEq, Eq, Structural)]
pub struct Vec2 {
    pub x: Rat,
    pub y: Rat,
}

impl View for Vec2 {
    type V = Vec2V;

    open spec fn view(&self) -> Vec2V {
        Vec2V { x: self.x@, y: self.y@ }
    }
}

impl Vec2 {
    pub open spec fn wf(self) -> bool {
        self.x.wf() && self.y.wf()
    }

    pub open spec fn small(self) -> bool {
        self.x.small() && self.y.small()
    }

    pub fn new(x: Rat, y: Rat) -> (r: Vec2)
        ensures
            r == (Vec2 { x, y }),
    {
        Vec2 { x, y }
    }

    pub fn from_ints(x: i64, y: i64) -> (r: Vec2)
        ensures
            r@.x == crate::rational::rv_int(x as int),
            r@.y == crate::rational::rv_int(y as int),
            r.wf(),
    {
        Vec2 { x: Rat::from_int(x), y: Rat::from_int(y) }
    }
}

/// The mathematical value of a [`Vec3`].
pub struct Vec3V {
    pub x: RatV,
    pub y: RatV,
    pub z: RatV,
}

/// The neutral tint's value: one on all three channels.
pub open spec fn spec_white() -> Vec3V {
    Vec3V {
        x: crate::rational::rv_int(1),
        y: crate::rational::rv_int(1),
        z: crate::rational::rv_int(1),
    }
}

/// A triple of rational scalars: a tint or a translation.
#[derive(Clone, Copy, Debug, PartialEq, Eq, Structural)]
pub struct Vec3 {
    pub x: Rat,
    pub y: Rat,
    pub z: Rat,
}

impl View for Vec3 {
    type V = Vec3V;

    open spec fn view(&self) -> Vec3V {
        Vec3V { x: self.x@, y: self.y@, z: self.z@ }
    }
}

impl Vec3 {
    pub open spec fn wf(self) -> bool {
        self.x.wf() && self.y.wf() && self.z.wf()
    }

    pub open spec fn small(self) -> bool {
        self.x.small() && self.y.small() && self.z.small()
    }

    pub fn new(x: Rat, y: Rat, z: Rat) -> (r: Vec3)
        ensures
            r == (Vec3 { x, y, z }),
    {
        Vec3 { x, y, z }
    }

    /// The neutral tint: full brightness on all three channels.
    pub fn white() -> (r: Vec3)
        ensures
            r@ == spec_white(),
            r.small(),
    {
        Vec3 { x: Rat::from_int(1), y: Rat::from_int(1), z: Rat::from_int(1) }
    }
}

} // verus!
