use vstd::prelude::*;

verus! {

/// Largest finite binary32 value, as a bit pattern.
pub const MAX_FINITE_BITS: u32 = 0x7f7f_ffff;

/// Negated largest finite binary32 value, as a bit pattern.
pub const NEG_MAX_FINITE_BITS: u32 = 0xff7f_ffff;

/// Three coordinates, each held as the bit pattern of an IEEE-754 binary32 value.
///
/// Equality is equality of the bit patterns, so a box compares equal to itself
/// whatever coordinates it holds.
#[derive(Clone, Copy, Debug, PartialEq, Eq, Structural)]
pub struct Vector3Bits {
    pub x: u32,
    pub y: u32,
    pub z: u32,
}

/// An axis-aligned bounding box given by its two extreme corners.
#[derive(Clone, Copy, Debug, PartialEq, Eq, Structural)]
pub struct Aabb {
    pub mins: Vector3Bits,
    pub maxs: Vector3Bits,
}

impl Vector3Bits {
    pub open spec fn splat_spec(v: u32) -> Vector3Bits {
        Vector3Bits { x: v, y: v, z: v }
    }

    /// The vector whose three coordinates are `v`.
    pub fn splat(v: u32) -> (r: Vector3Bits)
        ensures
            r == Self::splat_spec(v),
    {
        Vector3Bits { x: v, y: v, z: v }
    }
}

impl Aabb {
    /// The empty box: every lower bound is the largest finite value and every upper
    /// bound its negation, so that merging any box into it yields that box.
    pub open spec fn invalid_spec() -> Aabb {
        Aabb {
            mins: Vector3Bits::splat_spec(MAX_FINITE_BITS),
            maxs: Vector3Bits::splat_spec(NEG_MAX_FINITE_BITS),
        }
    }

    pub fn new(mins: Vector3Bits, maxs: Vector3Bits) -> (r: Aabb)
        ensures
            r.mins == mins,
            r.maxs == maxs,
    {
        Aabb { mins, maxs }
    }

    /// The empty box (see `invalid_spec`).
    pub fn new_invalid() -> (r: Aabb)
        ensures
            r == Self::invalid_spec(),
    {
        Aabb::new(Vector3Bits::splat(MAX_FINITE_BITS), Vector3Bits::splat(NEG_MAX_FINITE_BITS))
    }
}

} // verus!
