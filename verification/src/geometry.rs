//! Fixed-point planar geometry: coordinates, axis-aligned boxes and the
//! half-open hit test that the whole scene's pointer handling is built on.

use vstd::prelude::*;

verus! {

/// Number of fixed-point units per pixel. A coordinate of `256` is one
/// pixel from the origin; fractional cursor positions keep their subpixel
/// part until a drag step rounds them back to whole pixels.
pub const SUBPIXEL: i64 = 256;

/// Largest magnitude accepted for coordinates that enter the scene from
/// outside: cursor positions, inserted centers and radii.
pub const MAX_INPUT_COORD: i64 = 0x100_0000_0000;

/// Largest magnitude a stored shape center can reach. A drag step places a
/// center at `round(cursor - press) + radius`, which stays well inside this
/// bound whenever the inputs respect `MAX_INPUT_COORD`.
pub const MAX_STORE_COORD: i64 = 0x1000_0000_0000;

/// An externally supplied coordinate is within the accepted input range.
pub open spec fn input_coord_ok(c: int) -> bool {
    -MAX_INPUT_COORD <= c <= MAX_INPUT_COORD
}

/// A stored center coordinate is within the range the store maintains.
pub open spec fn store_coord_ok(c: int) -> bool {
    -MAX_STORE_COORD <= c <= MAX_STORE_COORD
}

/// A radius is non-negative and within the accepted input range.
pub open spec fn radius_ok(r: int) -> bool {
    0 <= r <= MAX_INPUT_COORD
}

/// Mathematical value of rounding a fixed-point coordinate to the nearest
/// whole pixel, ties away from zero (the rounding a drag step applies).
pub open spec fn round_px(c: int) -> int {
    if c >= 0 {
        ((c + SUBPIXEL / 2) / (SUBPIXEL as int)) * SUBPIXEL
    } else {
        -((((-c) + SUBPIXEL / 2) / (SUBPIXEL as int)) * SUBPIXEL)
    }
}

/// Rounds a fixed-point coordinate to the nearest whole pixel, ties away
/// from zero.
pub fn round_to_pixel(c: i64) -> (r: i64)
    requires
        -MAX_STORE_COORD - 4 * MAX_INPUT_COORD <= c <= MAX_STORE_COORD + 4 * MAX_INPUT_COORD,
    ensures
        r == round_px(c as int),
{
    if c >= 0 {
        ((c + SUBPIXEL / 2) / SUBPIXEL) * SUBPIXEL
    } else {
        -(((-c + SUBPIXEL / 2) / SUBPIXEL) * SUBPIXEL)
    }
}

/// A planar point or offset in fixed-point coordinates.
#[derive(Copy, Clone, Debug, PartialEq, Eq, Structural)]
pub struct Vec2 {
    pub x: i64,
    pub y: i64,
}

impl Vec2 {
    pub fn new(x: i64, y: i64) -> (v: Self)
        ensures
            v.x == x,
            v.y == y,
    {
        Vec2 { x, y }
    }
}

/// Both components of an input point are within the accepted input range.
pub open spec fn input_vec2_ok(v: Vec2) -> bool {
    input_coord_ok(v.x as int) && input_coord_ok(v.y as int)
}

/// Both components of a stored center are within the store's range.
pub open spec fn store_vec2_ok(v: Vec2) -> bool {
    store_coord_ok(v.x as int) && store_coord_ok(v.y as int)
}

/// An axis-aligned bounding box, spanned by its minimum and maximum corner.
#[derive(Copy, Clone, Debug, PartialEq, Eq, Structural)]
pub struct AABB {
    pub min: Vec2,
    pub max: Vec2,
}

/// Every corner coordinate of the box is small enough that the box can be
/// translated and queried without `i64` overflow.
pub open spec fn aabb_ok(b: AABB) -> bool {
    &&& -MAX_STORE_COORD - MAX_INPUT_COORD <= b.min.x <= MAX_STORE_COORD + MAX_INPUT_COORD
    &&& -MAX_STORE_COORD - MAX_INPUT_COORD <= b.min.y <= MAX_STORE_COORD + MAX_INPUT_COORD
    &&& -MAX_STORE_COORD - MAX_INPUT_COORD <= b.max.x <= MAX_STORE_COORD + MAX_INPUT_COORD
    &&& -MAX_STORE_COORD - MAX_INPUT_COORD <= b.max.y <= MAX_STORE_COORD + MAX_INPUT_COORD
}

/// The point `(x, y)` lies inside the box under the half-open convention:
/// the minimum edges are inside, the maximum edges are outside. A point
/// exactly on the maximum edge of two adjacent boxes therefore hits only
/// the box it is the minimum edge of.
pub open spec fn aabb_contains(b: AABB, x: int, y: int) -> bool {
    &&& b.min.x <= x < b.max.x
    &&& b.min.y <= y < b.max.y
}

impl AABB {
    /// Expresses a point relative to the box's minimum corner.
    pub fn local_point(&self, x: i64, y: i64) -> (p: Vec2)
        requires
            aabb_ok(*self),
            input_coord_ok(x as int),
            input_coord_ok(y as int),
        ensures
            p.x == x - self.min.x,
            p.y == y - self.min.y,
    {
        let left = self.min.x;
        let top = self.min.y;
        let local_x = x - left;
        let local_y = y - top;
        Vec2 { x: local_x, y: local_y }
    }

    /// Half-open containment test: `[min, max)` on both axes.
    pub fn hit_test(&self, x: i64, y: i64) -> (hit: bool)
        ensures
            hit == aabb_contains(*self, x as int, y as int),
    {
        let min_x = self.min.x;
        let min_y = self.min.y;
        let max_x = self.max.x;
        let max_y = self.max.y;
        min_x <= x && x < max_x && min_y <= y && y < max_y
    }

    /// Translates a center-relative box to a world-space position.
    pub fn with_center(&self, center: Vec2) -> (b: AABB)
        requires
            -MAX_INPUT_COORD <= self.min.x <= MAX_INPUT_COORD,
            -MAX_INPUT_COORD <= self.min.y <= MAX_INPUT_COORD,
            -MAX_INPUT_COORD <= self.max.x <= MAX_INPUT_COORD,
            -MAX_INPUT_COORD <= self.max.y <= MAX_INPUT_COORD,
            store_vec2_ok(center),
        ensures
            b.min.x == self.min.x + center.x,
            b.min.y == self.min.y + center.y,
            b.max.x == self.max.x + center.x,
            b.max.y == self.max.y + center.y,
            aabb_ok(b),
    {
        AABB {
            min: Vec2 { x: self.min.x + center.x, y: self.min.y + center.y },
            max: Vec2 { x: self.max.x + center.x, y: self.max.y + center.y },
        }
    }
}

/// A shape kind that can report its extent in shape-local, center-relative
/// coordinates.
pub trait BoundingBox {
    /// The box the executable `bounding_box` promises to return.
    spec fn spec_bounding_box(&self) -> AABB;

    /// The shape's extent around its own center.
    fn bounding_box(&self) -> (b: AABB)
        ensures
            b == self.spec_bounding_box(),
    ;
}

/// Law: the hit test is half-open. A point strictly inside the box hits; a
/// point on the maximum edge of either axis misses, even when it is inside
/// on the other axis.
pub proof fn lemma_hit_test_half_open(b: AABB, x: int, y: int)
    ensures
        (b.min.x <= x < b.max.x && b.min.y <= y < b.max.y) ==> aabb_contains(b, x, y),
        x == b.max.x ==> !aabb_contains(b, x, y),
        y == b.max.y ==> !aabb_contains(b, x, y),
{
}

} // verus!
