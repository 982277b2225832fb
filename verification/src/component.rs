//! The per-shape record types the columnar store keeps, one value per
//! column: identity, placement, appearance and the per-kind geometry
//! payloads they point into.

use vstd::prelude::*;

use crate::geometry::{radius_ok, Vec2, AABB, MAX_INPUT_COORD};

verus! {

/// Color as four 8-bit channels, packed in `0xRRGGBBAA` order when built
/// from a `u32` literal. The GPU side expands the channels to floats.
#[derive(Copy, Clone, Debug, PartialEq, Eq, Structural)]
pub struct RGBA {
    pub r: u8,
    pub g: u8,
    pub b: u8,
    pub a: u8,
}

impl From<u32> for RGBA {
    /// Splits a `0xRRGGBBAA` word into its big-endian channel bytes.
    fn from(value: u32) -> (c: Self) {
        RGBA {
            r: #[verifier::truncate] ((value >> 24) as u8),
            g: #[verifier::truncate] ((value >> 16) as u8),
            b: #[verifier::truncate] ((value >> 8) as u8),
            a: #[verifier::truncate] (value as u8),
        }
    }
}

impl vstd::std_specs::convert::FromSpecImpl<u32> for RGBA {
    open spec fn obeys_from_spec() -> bool {
        true
    }

    open spec fn from_spec(value: u32) -> RGBA {
        RGBA {
            r: (value >> 24) as u8,
            g: (value >> 16) as u8,
            b: (value >> 8) as u8,
            a: value as u8,
        }
    }
}

/// Stable integer identity of a shape: its index into the store's parallel
/// columns.
#[derive(Copy, Clone, Debug, PartialEq, Eq, Structural)]
pub struct ShapeId(pub u32);

impl From<u32> for ShapeId {
    fn from(value: u32) -> (id: Self) {
        ShapeId(value)
    }
}

impl vstd::std_specs::convert::FromSpecImpl<u32> for ShapeId {
    open spec fn obeys_from_spec() -> bool {
        true
    }

    open spec fn from_spec(value: u32) -> ShapeId {
        ShapeId(value)
    }
}

/// Index into the geometry table selected by a shape's kind; shapes of
/// different kinds therefore share one index space per kind, not one
/// global one.
#[derive(Copy, Clone, Debug, PartialEq, Eq, Structural)]
pub struct ShapeKindIndex(pub u32);

impl From<u32> for ShapeKindIndex {
    fn from(value: u32) -> (ki: Self) {
        ShapeKindIndex(value)
    }
}

impl vstd::std_specs::convert::FromSpecImpl<u32> for ShapeKindIndex {
    open spec fn obeys_from_spec() -> bool {
        true
    }

    open spec fn from_spec(value: u32) -> ShapeKindIndex {
        ShapeKindIndex(value)
    }
}

/// The closed set of geometric kinds the store understands.
#[derive(Copy, Clone, Debug, PartialEq, Eq, Structural)]
pub enum ShapeKind {
    Circle,
}

impl ShapeKind {
    /// The numeric tag the shaders use for this kind.
    pub fn shader_constant(&self) -> (c: u32)
        ensures
            self is Circle ==> c == 1,
    {
        match self {
            ShapeKind::Circle => 1,
        }
    }
}

/// Identity column entry: which kind a shape is, and where in that kind's
/// geometry table its payload lives.
#[derive(Copy, Clone, Debug, PartialEq, Eq, Structural)]
pub struct ShapeEntry {
    pub kind: ShapeKind,
    pub kind_index: ShapeKindIndex,
}

/// Placement column entry: the shape's world-space center.
#[derive(Copy, Clone, Debug, PartialEq, Eq, Structural)]
pub struct ShapePosition {
    pub center: Vec2,
}

/// Appearance column entry: the shape's tint color.
#[derive(Copy, Clone, Debug, PartialEq, Eq, Structural)]
pub struct ShapeAppearance {
    pub tint_color: RGBA,
}

/// Geometry payload of the circle kind.
#[derive(Copy, Clone, Debug, PartialEq, Eq, Structural)]
pub struct Circle {
    pub radius: i64,
}

impl Circle {
    /// The circle's extent around its own center: the square inscribing
    /// it. The hit test built on this box is deliberately a square test,
    /// not a true circular containment test.
    pub fn bounding_box(&self) -> (b: AABB)
        requires
            radius_ok(self.radius as int),
        ensures
            b.min.x == -self.radius,
            b.min.y == -self.radius,
            b.max.x == self.radius,
            b.max.y == self.radius,
            -MAX_INPUT_COORD <= b.min.x <= MAX_INPUT_COORD,
            -MAX_INPUT_COORD <= b.max.x <= MAX_INPUT_COORD,
    {
        AABB {
            min: Vec2 { x: -self.radius, y: -self.radius },
            max: Vec2 { x: self.radius, y: self.radius },
        }
    }
}

} // verus!
