//! The columnar shape store: parallel columns for identity, placement and
//! appearance, one geometry table per kind, and the mirror of what the
//! GPU-side copies of those columns hold.

use vstd::prelude::*;

use crate::column::GpuColumn;
use crate::component::{Circle, ShapeAppearance, ShapeEntry, ShapeId, ShapeKind, ShapeKindIndex,
    ShapePosition, RGBA};
use crate::geometry::{input_coord_ok, input_vec2_ok, radius_ok, round_px, round_to_pixel,
    store_vec2_ok, aabb_ok, Vec2, AABB, MAX_INPUT_COORD, MAX_STORE_COORD, SUBPIXEL};
use crate::pointer::PointerHit;

verus! {

/// Failure of a bounds-checked store access.
#[derive(Copy, Clone, Debug, PartialEq, Eq, Structural)]
pub enum StoreError {
    IndexOutOfRange,
}

/// Struct-of-arrays shape storage. A shape with index `i` is the tuple of
/// `entries()[i]`, `positions()[i]`, `appearances()[i]` and the record of
/// the geometry table its entry's kind selects, at the entry's kind index.
pub struct ShapesStorage {
    index_map: GpuColumn<ShapeEntry>,
    position: GpuColumn<ShapePosition>,
    appearance: GpuColumn<ShapeAppearance>,
    circle: GpuColumn<Circle>,
}

impl ShapesStorage {
    /// The identity column.
    pub closed spec fn entries(&self) -> Seq<ShapeEntry> {
        self.index_map.items()
    }

    /// The placement column.
    pub closed spec fn positions(&self) -> Seq<ShapePosition> {
        self.position.items()
    }

    /// The appearance column.
    pub closed spec fn appearances(&self) -> Seq<ShapeAppearance> {
        self.appearance.items()
    }

    /// The circle kind's geometry table.
    pub closed spec fn circles(&self) -> Seq<Circle> {
        self.circle.items()
    }

    /// Mirror of the identity column's GPU buffer.
    pub closed spec fn entries_buf(&self) -> Option<Seq<ShapeEntry>> {
        self.index_map.buffer_view()
    }

    /// Mirror of the placement column's GPU buffer.
    pub closed spec fn positions_buf(&self) -> Option<Seq<ShapePosition>> {
        self.position.buffer_view()
    }

    /// Mirror of the appearance column's GPU buffer.
    pub closed spec fn appearances_buf(&self) -> Option<Seq<ShapeAppearance>> {
        self.appearance.buffer_view()
    }

    /// Mirror of the circle table's GPU buffer.
    pub closed spec fn circles_buf(&self) -> Option<Seq<Circle>> {
        self.circle.buffer_view()
    }

    /// The GPU mirror has been initialized (all four buffers exist).
    pub open spec fn gpu_init(&self) -> bool {
        &&& self.entries_buf() is Some
        &&& self.positions_buf() is Some
        &&& self.appearances_buf() is Some
        &&& self.circles_buf() is Some
    }

    /// Every GPU buffer holds exactly its column's current contents.
    pub open spec fn synced(&self) -> bool {
        &&& self.entries_buf() == Some(self.entries())
        &&& self.positions_buf() == Some(self.positions())
        &&& self.appearances_buf() == Some(self.appearances())
        &&& self.circles_buf() == Some(self.circles())
    }

    /// Either the GPU mirror does not exist yet (insertion phase), or it
    /// exists and is in sync with the columns.
    pub open spec fn gpu_state_ok(&self) -> bool {
        ||| {
            &&& self.entries_buf() is None
            &&& self.positions_buf() is None
            &&& self.appearances_buf() is None
            &&& self.circles_buf() is None
        }
        ||| self.synced()
    }

    /// Shape `i`'s entry points into a valid slot of its kind's geometry
    /// table, that slot's parameters are in range, and the shape's stored
    /// center is in range.
    pub open spec fn entry_wf(&self, i: int) -> bool {
        match self.entries()[i].kind {
            ShapeKind::Circle => {
                &&& (self.entries()[i].kind_index.0 as int) < self.circles().len()
                &&& radius_ok(self.circles()[self.entries()[i].kind_index.0 as int].radius as int)
                &&& store_vec2_ok(self.positions()[i].center)
            },
        }
    }

    /// Store invariant: the three per-shape columns run in lockstep, each
    /// entry is valid, and the GPU mirror is absent or in sync.
    pub open spec fn wf(&self) -> bool {
        &&& self.positions().len() == self.entries().len()
        &&& self.appearances().len() == self.entries().len()
        &&& self.circles().len() <= self.entries().len()
        &&& self.entries().len() <= 0xFFFF_FFFF
        &&& forall|i: int| 0 <= i < self.entries().len() ==> self.entry_wf(i)
        &&& self.gpu_state_ok()
    }

    /// Radius of the geometry record shape `i`'s entry selects.
    pub open spec fn radius_of(&self, i: int) -> int {
        match self.entries()[i].kind {
            ShapeKind::Circle => self.circles()[self.entries()[i].kind_index.0 as int].radius as int,
        }
    }

    /// Minimum corner of shape `i`'s world-space bounding box.
    pub open spec fn bb_min_x(&self, i: int) -> int {
        self.positions()[i].center.x - self.radius_of(i)
    }

    pub open spec fn bb_min_y(&self, i: int) -> int {
        self.positions()[i].center.y - self.radius_of(i)
    }

    /// Maximum corner of shape `i`'s world-space bounding box.
    pub open spec fn bb_max_x(&self, i: int) -> int {
        self.positions()[i].center.x + self.radius_of(i)
    }

    pub open spec fn bb_max_y(&self, i: int) -> int {
        self.positions()[i].center.y + self.radius_of(i)
    }

    /// The point `(x, y)` hits shape `i` under the half-open convention.
    pub open spec fn hits(&self, i: int, x: int, y: int) -> bool {
        &&& self.bb_min_x(i) <= x < self.bb_max_x(i)
        &&& self.bb_min_y(i) <= y < self.bb_max_y(i)
    }

    /// Where the drag formula places shape `i`'s center: the cursor minus
    /// the press offset, rounded to whole pixels, re-centered by the
    /// kind's radius.
    pub open spec fn drag_center_x(&self, i: int, press: Vec2, cursor: Vec2) -> int {
        round_px(cursor.x - press.x) + self.radius_of(i)
    }

    pub open spec fn drag_center_y(&self, i: int, press: Vec2, cursor: Vec2) -> int {
        round_px(cursor.y - press.y) + self.radius_of(i)
    }
}

impl ShapesStorage {
    pub fn new() -> (s: Self)
        ensures
            s.wf(),
            s.entries() == Seq::<ShapeEntry>::empty(),
            s.positions() == Seq::<ShapePosition>::empty(),
            s.appearances() == Seq::<ShapeAppearance>::empty(),
            s.circles() == Seq::<Circle>::empty(),
            !s.gpu_init(),
    {
        ShapesStorage {
            index_map: GpuColumn::new(),
            position: GpuColumn::new(),
            appearance: GpuColumn::new(),
            circle: GpuColumn::new(),
        }
    }

    pub fn len(&self) -> (n: usize)
        ensures
            n == self.entries().len(),
    {
        self.index_map.len()
    }

    /// Appends one circle shape: its geometry record, identity entry,
    /// placement and appearance, in one atomic step. Returns the new
    /// shape's index. Insertion happens before the GPU mirror exists.
    pub fn insert_circle(&mut self, center: Vec2, radius: i64, tint_color: RGBA) -> (id: ShapeId)
        requires
            old(self).wf(),
            !old(self).gpu_init(),
            old(self).entries().len() < 0xFFFF_FFFF,
            store_vec2_ok(center),
            radius_ok(radius as int),
        ensures
            final(self).wf(),
            !final(self).gpu_init(),
            id.0 as int == old(self).entries().len(),
            final(self).entries() == old(self).entries().push(
                ShapeEntry {
                    kind: ShapeKind::Circle,
                    kind_index: ShapeKindIndex(old(self).circles().len() as u32),
                },
            ),
            final(self).positions() == old(self).positions().push(ShapePosition { center }),
            final(self).appearances() == old(self).appearances().push(
                ShapeAppearance { tint_color },
            ),
            final(self).circles() == old(self).circles().push(Circle { radius }),
    {
        let circle = Circle { radius };
        let circle_index = self.circle.insert(circle);

        let shape = ShapeEntry {
            kind: ShapeKind::Circle,
            kind_index: ShapeKindIndex(circle_index),
        };
        let id = self.index_map.insert(shape);
        self.position.insert(ShapePosition { center });
        self.appearance.insert(ShapeAppearance { tint_color });
        proof {
            assert forall|i: int| 0 <= i < self.entries().len() implies self.entry_wf(i) by {
                if i < old(self).entries().len() {
                    assert(old(self).entry_wf(i));
                }
            }
        }
        ShapeId(id)
    }

    /// Creates the GPU-side buffers from the current column contents: the
    /// one-time step that ends the insertion phase.
    pub fn init_buffers(&mut self)
        requires
            old(self).wf(),
            !old(self).gpu_init(),
        ensures
            final(self).wf(),
            final(self).gpu_init(),
            final(self).synced(),
            final(self).entries() == old(self).entries(),
            final(self).positions() == old(self).positions(),
            final(self).appearances() == old(self).appearances(),
            final(self).circles() == old(self).circles(),
    {
        self.index_map.init_buffer();
        self.position.init_buffer();
        self.appearance.init_buffer();
        self.circle.init_buffer();
        proof {
            assert forall|i: int| 0 <= i < self.entries().len() implies self.entry_wf(i) by {
                assert(old(self).entry_wf(i));
            }
        }
    }

    /// Overwrites one shape's center and re-uploads the placement
    /// column's GPU buffer — and only that buffer; the other columns'
    /// mirrors are untouched.
    pub fn set_position(&mut self, index: u32, new_center: Vec2)
        requires
            old(self).wf(),
            old(self).gpu_init(),
            (index as int) < old(self).entries().len(),
            store_vec2_ok(new_center),
        ensures
            final(self).wf(),
            final(self).gpu_init(),
            final(self).synced(),
            final(self).entries() == old(self).entries(),
            final(self).appearances() == old(self).appearances(),
            final(self).circles() == old(self).circles(),
            final(self).positions() == old(self).positions().update(
                index as int,
                ShapePosition { center: new_center },
            ),
            final(self).entries_buf() == old(self).entries_buf(),
            final(self).appearances_buf() == old(self).appearances_buf(),
            final(self).circles_buf() == old(self).circles_buf(),
    {
        self.position.set(index as usize, ShapePosition { center: new_center });
        self.position.update_buffer();
        assert(final(self).wf()) by {
            assert forall|i: int| 0 <= i < self.entries().len() implies self.entry_wf(i) by {
                assert(old(self).entry_wf(i));
            }
        }
    }

    /// One drag step: places the dragged shape's bounding-box corner at
    /// the cursor minus the press offset, rounded to the nearest whole
    /// pixel (ties away from zero), then re-centers by the kind's
    /// geometry. Pushes only the placement column to the GPU.
    pub fn drag_move(&mut self, shape: u32, press_position: Vec2, cursor_position: Vec2)
        requires
            old(self).wf(),
            old(self).gpu_init(),
            (shape as int) < old(self).entries().len(),
            input_vec2_ok(cursor_position),
            0 <= press_position.x <= 2 * MAX_INPUT_COORD,
            0 <= press_position.y <= 2 * MAX_INPUT_COORD,
        ensures
            final(self).wf(),
            final(self).gpu_init(),
            final(self).synced(),
            final(self).entries() == old(self).entries(),
            final(self).appearances() == old(self).appearances(),
            final(self).circles() == old(self).circles(),
            final(self).positions()[shape as int].center.x
                == old(self).drag_center_x(shape as int, press_position, cursor_position),
            final(self).positions()[shape as int].center.y
                == old(self).drag_center_y(shape as int, press_position, cursor_position),
            final(self).positions() == old(self).positions().update(
                shape as int,
                final(self).positions()[shape as int],
            ),
            final(self).entries_buf() == old(self).entries_buf(),
            final(self).appearances_buf() == old(self).appearances_buf(),
            final(self).circles_buf() == old(self).circles_buf(),
    {
        let entry = *self.index_map.get(shape as usize);
        match entry.kind {
            ShapeKind::Circle => {
                assert(self.entry_wf(shape as int));
                let circle = *self.circle.get(entry.kind_index.0 as usize);
                let dx = cursor_position.x - press_position.x;
                let dy = cursor_position.y - press_position.y;
                proof {
                    lemma_round_px_close(dx as int);
                    lemma_round_px_close(dy as int);
                }
                let min_x = round_to_pixel(dx);
                let min_y = round_to_pixel(dy);
                let center = Vec2 { x: min_x + circle.radius, y: min_y + circle.radius };
                self.set_position(shape, center);
            },
        }
    }

    /// The world-space bounding box of shape `shape`: its kind's local
    /// box translated by its stored center.
    pub fn bounding_box(&self, shape: u32) -> (b: AABB)
        requires
            self.wf(),
            (shape as int) < self.entries().len(),
        ensures
            b.min.x == self.bb_min_x(shape as int),
            b.min.y == self.bb_min_y(shape as int),
            b.max.x == self.bb_max_x(shape as int),
            b.max.y == self.bb_max_y(shape as int),
            aabb_ok(b),
    {
        let entry = *self.index_map.get(shape as usize);
        assert(self.entry_wf(shape as int));
        match entry.kind {
            ShapeKind::Circle => {
                let circle = *self.circle.get(entry.kind_index.0 as usize);
                circle.bounding_box().with_center(self.position.get(shape as usize).center)
            },
        }
    }

    /// Tests one shape: the local point iff the query point is inside the
    /// shape's bounding box.
    pub fn check_hovered(&self, shape: u32, x: i64, y: i64) -> (hit: Option<Vec2>)
        requires
            self.wf(),
            (shape as int) < self.entries().len(),
            input_coord_ok(x as int),
            input_coord_ok(y as int),
        ensures
            hit is Some <==> self.hits(shape as int, x as int, y as int),
            hit matches Some(p) ==> {
                &&& p.x == x - self.bb_min_x(shape as int)
                &&& p.y == y - self.bb_min_y(shape as int)
            },
    {
        let b = self.bounding_box(shape);
        if b.hit_test(x, y) {
            Some(b.local_point(x, y))
        } else {
            None
        }
    }

    /// Scans shapes in ascending index order and returns the first whose
    /// bounding box contains the query point; the lowest index — the
    /// earliest insertion — wins every overlap.
    pub fn find_hovered(&self, x: i64, y: i64) -> (found: Option<PointerHit>)
        requires
            self.wf(),
            input_coord_ok(x as int),
            input_coord_ok(y as int),
        ensures
            found matches Some(h) ==> {
                &&& (h.index as int) < self.entries().len()
                &&& self.hits(h.index as int, x as int, y as int)
                &&& forall|j: int| 0 <= j < h.index as int ==> !self.hits(j, x as int, y as int)
                &&& h.local_position.x == x - self.bb_min_x(h.index as int)
                &&& h.local_position.y == y - self.bb_min_y(h.index as int)
            },
            found is None ==> forall|j: int|
                0 <= j < self.entries().len() ==> !self.hits(j, x as int, y as int),
    {
        let n = self.index_map.len();
        let mut i: usize = 0;
        while i < n
            invariant
                self.wf(),
                input_coord_ok(x as int),
                input_coord_ok(y as int),
                n == self.entries().len(),
                i <= n,
                forall|j: int| 0 <= j < i as int ==> !self.hits(j, x as int, y as int),
            decreases n - i,
        {
            let b = self.bounding_box(i as u32);
            if b.hit_test(x, y) {
                let lp = b.local_point(x, y);
                return Some(PointerHit { index: i, local_position: lp });
            }
            i = i + 1;
        }
        None
    }

    /// Bounds-checked read of a shape's identity entry.
    pub fn entry(&self, index: u32) -> (r: Result<ShapeEntry, StoreError>)
        ensures
            (index as int) < self.entries().len() ==> r == Ok::<ShapeEntry, StoreError>(
                self.entries()[index as int],
            ),
            (index as int) >= self.entries().len() ==> r == Err::<ShapeEntry, StoreError>(
                StoreError::IndexOutOfRange,
            ),
    {
        if (index as usize) < self.index_map.len() {
            Ok(*self.index_map.get(index as usize))
        } else {
            Err(StoreError::IndexOutOfRange)
        }
    }

    /// Bounds-checked read of a shape's placement.
    pub fn position(&self, index: u32) -> (r: Result<ShapePosition, StoreError>)
        requires
            self.wf(),
        ensures
            (index as int) < self.entries().len() ==> r == Ok::<ShapePosition, StoreError>(
                self.positions()[index as int],
            ),
            (index as int) >= self.entries().len() ==> r == Err::<ShapePosition, StoreError>(
                StoreError::IndexOutOfRange,
            ),
    {
        if (index as usize) < self.position.len() {
            Ok(*self.position.get(index as usize))
        } else {
            Err(StoreError::IndexOutOfRange)
        }
    }

    /// Bounds-checked read of a geometry record, addressed by kind and
    /// kind index — not by shape index.
    pub fn geometry(&self, kind: ShapeKind, kind_index: ShapeKindIndex) -> (r: Result<
        Circle,
        StoreError,
    >)
        ensures
            match kind {
                ShapeKind::Circle => {
                    &&& (kind_index.0 as int) < self.circles().len() ==> r == Ok::<
                        Circle,
                        StoreError,
                    >(self.circles()[kind_index.0 as int])
                    &&& (kind_index.0 as int) >= self.circles().len() ==> r == Err::<
                        Circle,
                        StoreError,
                    >(StoreError::IndexOutOfRange)
                },
            },
    {
        match kind {
            ShapeKind::Circle => {
                if (kind_index.0 as usize) < self.circle.len() {
                    Ok(*self.circle.get(kind_index.0 as usize))
                } else {
                    Err(StoreError::IndexOutOfRange)
                }
            },
        }
    }

    /// The identity column's mirrored GPU contents, for upload.
    pub fn entries_buffer(&self) -> (b: &Option<Vec<ShapeEntry>>)
        ensures
            match b {
                Some(v) => self.entries_buf() == Some(v@),
                None => self.entries_buf() is None,
            },
    {
        self.index_map.buffer_contents()
    }

    /// The placement column's mirrored GPU contents, for upload.
    pub fn positions_buffer(&self) -> (b: &Option<Vec<ShapePosition>>)
        ensures
            match b {
                Some(v) => self.positions_buf() == Some(v@),
                None => self.positions_buf() is None,
            },
    {
        self.position.buffer_contents()
    }

    /// The appearance column's mirrored GPU contents, for upload.
    pub fn appearances_buffer(&self) -> (b: &Option<Vec<ShapeAppearance>>)
        ensures
            match b {
                Some(v) => self.appearances_buf() == Some(v@),
                None => self.appearances_buf() is None,
            },
    {
        self.appearance.buffer_contents()
    }

    /// The circle table's mirrored GPU contents, for upload.
    pub fn circles_buffer(&self) -> (b: &Option<Vec<Circle>>)
        ensures
            match b {
                Some(v) => self.circles_buf() == Some(v@),
                None => self.circles_buf() is None,
            },
    {
        self.circle.buffer_contents()
    }
}

/// The scene data a generation pass reads: the contents of all four
/// columns at the moment the pass runs. Two passes that read equal
/// snapshots compute identical outputs.
pub ghost struct SceneSnapshot {
    pub entries: Seq<ShapeEntry>,
    pub positions: Seq<ShapePosition>,
    pub appearances: Seq<ShapeAppearance>,
    pub circles: Seq<Circle>,
}

/// The snapshot a pass running now would read from the store.
pub open spec fn snapshot(s: ShapesStorage) -> SceneSnapshot {
    SceneSnapshot {
        entries: s.entries(),
        positions: s.positions(),
        appearances: s.appearances(),
        circles: s.circles(),
    }
}

/// Rounding to the nearest pixel moves a coordinate by at most half a
/// pixel.
pub proof fn lemma_round_px_close(c: int)
    ensures
        c - SUBPIXEL / 2 <= round_px(c) <= c + SUBPIXEL / 2,
{
    if c >= 0 {
        vstd::arithmetic::div_mod::lemma_fundamental_div_mod(c + 128, 256);
        vstd::arithmetic::div_mod::lemma_mod_bound(c + 128, 256);
    } else {
        let d = -c;
        vstd::arithmetic::div_mod::lemma_fundamental_div_mod(d + 128, 256);
        vstd::arithmetic::div_mod::lemma_mod_bound(d + 128, 256);
    }
}

/// Law: a freshly inserted circle's bounding box is its center translated
/// by its radius on each axis: `(center - (r, r), center + (r, r))`.
pub proof fn lemma_inserted_circle_bounding_box(
    pre: ShapesStorage,
    post: ShapesStorage,
    center: Vec2,
    radius: i64,
    id: ShapeId,
)
    requires
        pre.wf(),
        pre.entries().len() < 0xFFFF_FFFF,
        id.0 as int == pre.entries().len(),
        post.entries() == pre.entries().push(
            ShapeEntry {
                kind: ShapeKind::Circle,
                kind_index: ShapeKindIndex(pre.circles().len() as u32),
            },
        ),
        post.positions() == pre.positions().push(ShapePosition { center }),
        post.circles() == pre.circles().push(Circle { radius }),
    ensures
        post.bb_min_x(id.0 as int) == center.x - radius,
        post.bb_min_y(id.0 as int) == center.y - radius,
        post.bb_max_x(id.0 as int) == center.x + radius,
        post.bb_max_y(id.0 as int) == center.y + radius,
{
    assert(post.entries()[id.0 as int].kind_index.0 as int == pre.circles().len());
    assert(post.circles()[pre.circles().len() as int].radius == radius);
}

/// Law: the first-hit scan is deterministic — there is exactly one index
/// that both contains the point and has no lower-index shape containing
/// it.
pub proof fn lemma_lowest_hit_unique(s: &ShapesStorage, x: int, y: int, i1: int, i2: int)
    requires
        0 <= i1 < s.entries().len(),
        0 <= i2 < s.entries().len(),
        s.hits(i1, x, y),
        s.hits(i2, x, y),
        forall|j: int| 0 <= j < i1 ==> !s.hits(j, x, y),
        forall|j: int| 0 <= j < i2 ==> !s.hits(j, x, y),
    ensures
        i1 == i2,
{
}

} // verus!
