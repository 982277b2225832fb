//! The scene: the shape store, the pointer-interaction state machine that
//! is its sole mutator, and the two derived-texture stages that are
//! regenerated, silhouette first, whenever a drag moves a shape or the
//! viewport changes size.

use vstd::prelude::*;

use crate::component::{ShapeId, RGBA};
use crate::geometry::{input_coord_ok, radius_ok, store_vec2_ok, Vec2};
use crate::light_map::{light_maps_input, light_maps_resize_rel, LightMaps};
use crate::pointer::PointerState;
use crate::silhouette::{silhouette_input, silhouette_resize_rel, SilhouetteSdf};
use crate::store::{snapshot, ShapesStorage};

verus! {

/// What a cursor move leaves behind when it rescans the whole scene: the
/// state is `Hovered` at the lowest-index shape containing the point,
/// with the point expressed relative to that shape's bounding box, or
/// `Idle` when no shape contains it.
pub open spec fn hover_state_rel(s: ShapesStorage, st: PointerState, x: int, y: int) -> bool {
    &&& (st is Idle <==> (forall|j: int| 0 <= j < s.entries().len() ==> !s.hits(j, x, y)))
    &&& (st matches PointerState::Hovered { index, hover_position } ==> {
        &&& (index as int) < s.entries().len()
        &&& s.hits(index as int, x, y)
        &&& (forall|j: int| 0 <= j < index as int ==> !s.hits(j, x, y))
        &&& hover_position.x == x - s.bb_min_x(index as int)
        &&& hover_position.y == y - s.bb_min_y(index as int)
    })
    &&& (st is Idle || st is Hovered)
}

/// What a button press does to the interaction state: a hovered shape
/// becomes pressed, capturing the hover offset; idle stays idle. Pressing
/// while already pressed or dragging is a caller contract violation and
/// excluded by precondition.
pub open spec fn press_transition(st: PointerState) -> PointerState {
    match st {
        PointerState::Hovered { index, hover_position } => PointerState::Pressed {
            index,
            press_position: hover_position,
        },
        _ => st,
    }
}

/// What a cursor move does to a pressed state: the press becomes a drag,
/// keeping the captured offset; no shape moves yet on this first event.
pub open spec fn drag_start_transition(st: PointerState) -> PointerState {
    match st {
        PointerState::Pressed { index, press_position } => PointerState::Dragging {
            index,
            press_position,
        },
        _ => st,
    }
}

/// What a button release does to the interaction state: a pressed or
/// dragging shape returns to hovered with the offset captured at press
/// time; idle stays idle. Releasing while merely hovered is a caller
/// contract violation and excluded by precondition.
pub open spec fn release_transition(st: PointerState) -> PointerState {
    match st {
        PointerState::Pressed { index, press_position } => PointerState::Hovered {
            index,
            hover_position: press_position,
        },
        PointerState::Dragging { index, press_position } => PointerState::Hovered {
            index,
            hover_position: press_position,
        },
        _ => st,
    }
}

/// The scene: columnar store, interaction state and the two derived
/// stages.
pub struct Shapes {
    storage: ShapesStorage,
    silhouette: SilhouetteSdf,
    light: LightMaps,
    state: PointerState,
}

impl Shapes {
    pub closed spec fn spec_storage(&self) -> ShapesStorage {
        self.storage
    }

    pub closed spec fn spec_silhouette(&self) -> SilhouetteSdf {
        self.silhouette
    }

    pub closed spec fn spec_light(&self) -> LightMaps {
        self.light
    }

    pub closed spec fn spec_state(&self) -> PointerState {
        self.state
    }

    /// A captured offset is consistent with the shape it belongs to: it
    /// lies inside the shape's bounding box, measured from the box's
    /// minimum corner.
    pub open spec fn offset_wf(&self, i: int, p: Vec2) -> bool {
        &&& 0 <= i < self.spec_storage().entries().len()
        &&& 0 <= p.x < 2 * self.spec_storage().radius_of(i)
        &&& 0 <= p.y < 2 * self.spec_storage().radius_of(i)
    }

    /// The interaction state only ever points at a shape that exists,
    /// with an offset captured inside that shape's bounding box.
    pub open spec fn state_wf(&self) -> bool {
        match self.spec_state() {
            PointerState::Idle => true,
            PointerState::Hovered { index, hover_position } => self.offset_wf(
                index as int,
                hover_position,
            ),
            PointerState::Pressed { index, press_position } => self.offset_wf(
                index as int,
                press_position,
            ),
            PointerState::Dragging { index, press_position } => self.offset_wf(
                index as int,
                press_position,
            ),
        }
    }

    /// Scene invariant.
    pub open spec fn wf(&self) -> bool {
        &&& self.spec_storage().wf()
        &&& self.state_wf()
    }

    /// Creates an empty scene whose stage targets are allocated at the
    /// given viewport size but not yet generated.
    pub fn new(width: u32, height: u32) -> (scene: Self)
        ensures
            scene.wf(),
            scene.spec_storage().entries().len() == 0,
            !scene.spec_storage().gpu_init(),
            scene.spec_state() is Idle,
            scene.spec_silhouette().spec_width() == width,
            scene.spec_silhouette().spec_height() == height,
            scene.spec_silhouette().spec_generations() == 0,
            scene.spec_silhouette().rendered() is None,
            scene.spec_light().spec_width() == width,
            scene.spec_light().spec_height() == height,
            scene.spec_light().spec_generations() == 0,
            scene.spec_light().rendered() is None,
    {
        Shapes {
            storage: ShapesStorage::new(),
            silhouette: SilhouetteSdf::new(width, height),
            light: LightMaps::new(width, height),
            state: PointerState::Idle,
        }
    }

    /// Appends a circle to the store. Insertion happens before the GPU
    /// mirror is initialized.
    pub fn insert_circle(&mut self, center: Vec2, radius: i64, tint_color: RGBA) -> (id: ShapeId)
        requires
            old(self).wf(),
            !old(self).spec_storage().gpu_init(),
            old(self).spec_storage().entries().len() < 0xFFFF_FFFF,
            store_vec2_ok(center),
            radius_ok(radius as int),
        ensures
            final(self).wf(),
            !final(self).spec_storage().gpu_init(),
            id.0 as int == old(self).spec_storage().entries().len(),
            final(self).spec_storage().entries() == old(self).spec_storage().entries().push(
                final(self).spec_storage().entries().last(),
            ),
            final(self).spec_storage().entries().last().kind_index.0 as int == old(
                self,
            ).spec_storage().circles().len(),
            final(self).spec_storage().positions() == old(self).spec_storage().positions().push(
                final(self).spec_storage().positions().last(),
            ),
            final(self).spec_storage().positions().last().center == center,
            final(self).spec_storage().appearances().last().tint_color == tint_color,
            final(self).spec_storage().circles() == old(self).spec_storage().circles().push(
                final(self).spec_storage().circles().last(),
            ),
            final(self).spec_storage().circles().last().radius == radius,
            final(self).spec_state() == old(self).spec_state(),
            final(self).spec_silhouette() == old(self).spec_silhouette(),
            final(self).spec_light() == old(self).spec_light(),
    {
        let id = self.storage.insert_circle(center, radius, tint_color);
        proof {
            let post = self.spec_storage();
            let pre = old(self).spec_storage();
            match old(self).spec_state() {
                PointerState::Idle => {},
                PointerState::Hovered { index, .. } => {
                    lemma_push_preserves_radius(pre, post, index as int);
                },
                PointerState::Pressed { index, .. } => {
                    lemma_push_preserves_radius(pre, post, index as int);
                },
                PointerState::Dragging { index, .. } => {
                    lemma_push_preserves_radius(pre, post, index as int);
                },
            }
        }
        id
    }

    /// One-time GPU initialization, after all inserts: builds the store's
    /// buffers from the columns and runs both generation passes for the
    /// first time, silhouette first.
    pub fn init_gpu(&mut self)
        requires
            old(self).wf(),
            !old(self).spec_storage().gpu_init(),
            old(self).spec_silhouette().spec_generations() < u64::MAX,
            old(self).spec_light().spec_generations() < u64::MAX,
        ensures
            final(self).wf(),
            final(self).spec_storage().gpu_init(),
            final(self).spec_storage().synced(),
            final(self).spec_storage().entries() == old(self).spec_storage().entries(),
            final(self).spec_storage().positions() == old(self).spec_storage().positions(),
            final(self).spec_storage().appearances() == old(self).spec_storage().appearances(),
            final(self).spec_storage().circles() == old(self).spec_storage().circles(),
            final(self).spec_state() == old(self).spec_state(),
            final(self).spec_silhouette().spec_generations() == old(
                self,
            ).spec_silhouette().spec_generations() + 1,
            final(self).spec_silhouette().rendered() == Some(
                silhouette_input(
                    final(self).spec_storage(),
                    old(self).spec_silhouette().spec_width(),
                    old(self).spec_silhouette().spec_height(),
                ),
            ),
            final(self).spec_light().spec_generations() == old(
                self,
            ).spec_light().spec_generations() + 1,
            final(self).spec_light().rendered() == Some(
                light_maps_input(
                    final(self).spec_storage(),
                    final(self).spec_silhouette(),
                    old(self).spec_light().spec_width(),
                    old(self).spec_light().spec_height(),
                ),
            ),
            final(self).spec_silhouette().spec_width() == old(self).spec_silhouette().spec_width(),
            final(self).spec_silhouette().spec_height() == old(
                self,
            ).spec_silhouette().spec_height(),
            final(self).spec_light().spec_width() == old(self).spec_light().spec_width(),
            final(self).spec_light().spec_height() == old(self).spec_light().spec_height(),
    {
        self.storage.init_buffers();
        self.silhouette.generate(&self.storage);
        self.light.generate(&self.storage, &self.silhouette);
    }

    /// Recreates both stages' targets at the new viewport size and
    /// regenerates them, silhouette first so the light map never samples
    /// a stale silhouette target.
    pub fn resize(&mut self, width: u32, height: u32)
        requires
            old(self).wf(),
            old(self).spec_storage().gpu_init(),
            old(self).spec_silhouette().spec_generations() < u64::MAX,
            old(self).spec_light().spec_generations() < u64::MAX,
        ensures
            final(self).wf(),
            scene_resize_rel(*old(self), *final(self), width, height),
    {
        self.silhouette.resize(&self.storage, width, height);
        self.light.resize(&self.storage, &self.silhouette, width, height);
    }

    /// Handles a cursor move. Returns whether the move mutated the scene
    /// and regenerated the derived stages (true exactly for a move while
    /// dragging).
    pub fn cursor_move(&mut self, x: i64, y: i64) -> (regenerated: bool)
        requires
            old(self).wf(),
            input_coord_ok(x as int),
            input_coord_ok(y as int),
            old(self).spec_state() is Dragging ==> {
                &&& old(self).spec_storage().gpu_init()
                &&& old(self).spec_silhouette().spec_generations() < u64::MAX
                &&& old(self).spec_light().spec_generations() < u64::MAX
            },
        ensures
            final(self).wf(),
            // A move that does not drag changes no scene data and runs no pass.
            !(old(self).spec_state() is Dragging) ==> {
                &&& final(self).spec_storage() == old(self).spec_storage()
                &&& final(self).spec_silhouette() == old(self).spec_silhouette()
                &&& final(self).spec_light() == old(self).spec_light()
                &&& regenerated == false
            },
            // From Idle: rescan the scene.
            old(self).spec_state() is Idle ==> hover_state_rel(
                old(self).spec_storage(),
                final(self).spec_state(),
                x as int,
                y as int,
            ),
            // From Hovered: re-test the same shape first; only on a miss
            // rescan the whole scene.
            old(self).spec_state() matches PointerState::Hovered { index, .. } ==> {
                if old(self).spec_storage().hits(index as int, x as int, y as int) {
                    &&& final(self).spec_state() matches PointerState::Hovered {
                        index: i2,
                        hover_position,
                    }
                    &&& i2 == index
                    &&& hover_position.x == x - old(self).spec_storage().bb_min_x(index as int)
                    &&& hover_position.y == y - old(self).spec_storage().bb_min_y(index as int)
                } else {
                    hover_state_rel(
                        old(self).spec_storage(),
                        final(self).spec_state(),
                        x as int,
                        y as int,
                    )
                }
            },
            // From Pressed: the drag starts; nothing moves yet.
            old(self).spec_state() is Pressed ==> final(self).spec_state()
                == drag_start_transition(old(self).spec_state()),
            // From Dragging: move the shape, push its position, regenerate
            // both stages against the freshly written positions.
            old(self).spec_state() is Dragging ==> drag_move_rel(
                *old(self),
                *final(self),
                x as int,
                y as int,
            ),
            regenerated == (old(self).spec_state() is Dragging),
    {
        let st = self.state.take();
        match st {
            PointerState::Idle => {
                let hit = self.storage.find_hovered(x, y);
                self.state = match hit {
                    Some(h) => PointerState::Hovered {
                        index: h.index,
                        hover_position: h.local_position,
                    },
                    None => PointerState::Idle,
                };
                false
            },
            PointerState::Hovered { index, hover_position: _ } => {
                let hit = self.storage.check_hovered(index as u32, x, y);
                match hit {
                    Some(p) => {
                        self.state = PointerState::Hovered { index, hover_position: p };
                    },
                    None => {
                        let rescan = self.storage.find_hovered(x, y);
                        self.state = match rescan {
                            Some(h) => PointerState::Hovered {
                                index: h.index,
                                hover_position: h.local_position,
                            },
                            None => PointerState::Idle,
                        };
                    },
                }
                false
            },
            PointerState::Pressed { index, press_position } => {
                self.state = PointerState::Dragging { index, press_position };
                false
            },
            PointerState::Dragging { index, press_position } => {
                proof {
                    assert(old(self).spec_storage().entry_wf(index as int));
                }
                self.storage.drag_move(index as u32, press_position, Vec2 { x, y });
                self.silhouette.generate(&self.storage);
                self.light.generate(&self.storage, &self.silhouette);
                self.state = PointerState::Dragging { index, press_position };
                true
            },
        }
    }

    /// Handles a button press. Pressing while already pressed or dragging
    /// is a caller contract violation (the integration layer must not
    /// deliver it), hence excluded by precondition.
    pub fn mouse_press(&mut self)
        requires
            old(self).wf(),
            !(old(self).spec_state() is Pressed),
            !(old(self).spec_state() is Dragging),
        ensures
            final(self).wf(),
            final(self).spec_storage() == old(self).spec_storage(),
            final(self).spec_silhouette() == old(self).spec_silhouette(),
            final(self).spec_light() == old(self).spec_light(),
            final(self).spec_state() == press_transition(old(self).spec_state()),
    {
        let st = self.state.take();
        self.state = match st {
            PointerState::Idle => PointerState::Idle,
            PointerState::Hovered { index, hover_position } => PointerState::Pressed {
                index,
                press_position: hover_position,
            },
            other => other,
        };
    }

    /// Handles a button release. Releasing while merely hovered is a
    /// caller contract violation, hence excluded by precondition.
    pub fn mouse_release(&mut self)
        requires
            old(self).wf(),
            !(old(self).spec_state() is Hovered),
        ensures
            final(self).wf(),
            final(self).spec_storage() == old(self).spec_storage(),
            final(self).spec_silhouette() == old(self).spec_silhouette(),
            final(self).spec_light() == old(self).spec_light(),
            final(self).spec_state() == release_transition(old(self).spec_state()),
    {
        let st = self.state.take();
        self.state = match st {
            PointerState::Idle => PointerState::Idle,
            PointerState::Pressed { index, press_position } => PointerState::Hovered {
                index,
                hover_position: press_position,
            },
            PointerState::Dragging { index, press_position } => PointerState::Hovered {
                index,
                hover_position: press_position,
            },
            other => other,
        };
    }

    pub fn storage(&self) -> (s: &ShapesStorage)
        ensures
            *s == self.spec_storage(),
    {
        &self.storage
    }

    pub fn silhouette(&self) -> (s: &SilhouetteSdf)
        ensures
            *s == self.spec_silhouette(),
    {
        &self.silhouette
    }

    pub fn light(&self) -> (l: &LightMaps)
        ensures
            *l == self.spec_light(),
    {
        &self.light
    }

    pub fn state(&self) -> (st: &PointerState)
        ensures
            *st == self.spec_state(),
    {
        &self.state
    }
}

/// Appending new records to the columns leaves every existing shape's
/// entry and selected geometry record — hence its radius — unchanged.
proof fn lemma_push_preserves_radius(pre: ShapesStorage, post: ShapesStorage, i: int)
    requires
        pre.wf(),
        0 <= i < pre.entries().len(),
        post.entries().len() == pre.entries().len() + 1,
        forall|j: int| 0 <= j < pre.entries().len() ==> post.entries()[j] == pre.entries()[j],
        post.circles().len() >= pre.circles().len(),
        forall|j: int| 0 <= j < pre.circles().len() ==> post.circles()[j] == pre.circles()[j],
    ensures
        post.radius_of(i) == pre.radius_of(i),
{
    assert(pre.entry_wf(i));
}

/// What one cursor move does to a dragging scene: the dragged shape's
/// position is rewritten by the drag formula, only the placement column's
/// GPU mirror is re-pushed, and both stages are regenerated against the
/// freshly written positions — silhouette first, then the light map over
/// that fresh silhouette.
pub open spec fn drag_move_rel(pre: Shapes, post: Shapes, x: int, y: int) -> bool {
    pre.spec_state() matches PointerState::Dragging { index, press_position } && {
        &&& post.spec_state() == pre.spec_state()
        &&& post.spec_storage().entries() == pre.spec_storage().entries()
        &&& post.spec_storage().appearances() == pre.spec_storage().appearances()
        &&& post.spec_storage().circles() == pre.spec_storage().circles()
        &&& post.spec_storage().positions() == pre.spec_storage().positions().update(
            index as int,
            post.spec_storage().positions()[index as int],
        )
        &&& post.spec_storage().positions()[index as int].center.x == pre.spec_storage().drag_center_x(
            index as int,
            press_position,
            Vec2 { x: x as i64, y: y as i64 },
        )
        &&& post.spec_storage().positions()[index as int].center.y == pre.spec_storage().drag_center_y(
            index as int,
            press_position,
            Vec2 { x: x as i64, y: y as i64 },
        )
        &&& post.spec_storage().synced()
        &&& post.spec_storage().entries_buf() == pre.spec_storage().entries_buf()
        &&& post.spec_storage().appearances_buf() == pre.spec_storage().appearances_buf()
        &&& post.spec_storage().circles_buf() == pre.spec_storage().circles_buf()
        &&& post.spec_silhouette().spec_width() == pre.spec_silhouette().spec_width()
        &&& post.spec_silhouette().spec_height() == pre.spec_silhouette().spec_height()
        &&& post.spec_silhouette().spec_generations() == pre.spec_silhouette().spec_generations()
            + 1
        &&& post.spec_silhouette().rendered() == Some(
            silhouette_input(
                post.spec_storage(),
                pre.spec_silhouette().spec_width(),
                pre.spec_silhouette().spec_height(),
            ),
        )
        &&& post.spec_light().spec_width() == pre.spec_light().spec_width()
        &&& post.spec_light().spec_height() == pre.spec_light().spec_height()
        &&& post.spec_light().spec_generations() == pre.spec_light().spec_generations() + 1
        &&& post.spec_light().rendered() == Some(
            light_maps_input(
                post.spec_storage(),
                post.spec_silhouette(),
                pre.spec_light().spec_width(),
                pre.spec_light().spec_height(),
            ),
        )
    }
}

/// Law: the interaction protocol round-trips the captured offset. From
/// `Idle`, a cursor move that hits shape `i` hovers it with the local
/// offset `p`; a press captures exactly that offset; a further move turns
/// the press into a drag without touching the offset; a release restores
/// `Hovered` with the offset captured at press time.
pub proof fn lemma_pointer_round_trip(
    s: ShapesStorage,
    st: PointerState,
    x: int,
    y: int,
    i: usize,
    p: Vec2,
)
    requires
        hover_state_rel(s, st, x, y),
        (i as int) < s.entries().len(),
        s.hits(i as int, x, y),
        forall|j: int| 0 <= j < i as int ==> !s.hits(j, x, y),
        p.x == x - s.bb_min_x(i as int),
        p.y == y - s.bb_min_y(i as int),
    ensures
        st == (PointerState::Hovered { index: i, hover_position: p }),
        press_transition(st) == (PointerState::Pressed { index: i, press_position: p }),
        drag_start_transition(press_transition(st)) == (PointerState::Dragging {
            index: i,
            press_position: p,
        }),
        release_transition(drag_start_transition(press_transition(st)))
            == (PointerState::Hovered { index: i, hover_position: p }),
{
    match st {
        PointerState::Hovered { index, hover_position } => {
            crate::store::lemma_lowest_hit_unique(&s, x, y, index as int, i as int);
        },
        _ => {
            assert(s.hits(i as int, x, y));
        },
    }
}

/// Law: resizing the scene twice in a row to the same dimensions, over
/// unchanged shape data, leaves both stages with bit-identical rendered
/// contents to a single resize.
pub proof fn lemma_scene_resize_idempotent(
    s0: Shapes,
    s1: Shapes,
    s2: Shapes,
    width: u32,
    height: u32,
)
    requires
        scene_resize_rel(s0, s1, width, height),
        scene_resize_rel(s1, s2, width, height),
    ensures
        s1.spec_silhouette().rendered() == s2.spec_silhouette().rendered(),
        s1.spec_light().rendered() == s2.spec_light().rendered(),
        s1.spec_silhouette().spec_width() == s2.spec_silhouette().spec_width(),
        s1.spec_silhouette().spec_height() == s2.spec_silhouette().spec_height(),
        s1.spec_light().spec_width() == s2.spec_light().spec_width(),
        s1.spec_light().spec_height() == s2.spec_light().spec_height(),
{
}

/// Law: a run of `n` cursor moves in the `Dragging` state regenerates the
/// silhouette and the light map exactly `n` times each — one full
/// regeneration per event, never batched — and after every event both
/// stages reflect the shape positions written by that event, never stale
/// ones.
pub proof fn lemma_drag_run_regenerations(trace: Seq<Shapes>, xs: Seq<int>, ys: Seq<int>)
    requires
        trace.len() >= 1,
        xs.len() == trace.len() - 1,
        ys.len() == trace.len() - 1,
        forall|k: int| 0 <= k < trace.len() - 1 ==> #[trigger] drag_move_rel(
            trace[k],
            trace[k + 1],
            xs[k],
            ys[k],
        ),
    ensures
        trace.last().spec_silhouette().spec_generations() == trace[0].spec_silhouette().spec_generations()
            + (trace.len() - 1),
        trace.last().spec_light().spec_generations() == trace[0].spec_light().spec_generations()
            + (trace.len() - 1),
        forall|k: int| 0 <= k < trace.len() - 1 ==> ((#[trigger] trace[k
            + 1].spec_silhouette().rendered()) matches Some(input) && input.scene == snapshot(
            trace[k + 1].spec_storage(),
        )),
        forall|k: int| 0 <= k < trace.len() - 1 ==> ((#[trigger] trace[k
            + 1].spec_light().rendered()) matches Some(input) && input.scene == snapshot(
            trace[k + 1].spec_storage(),
        )),
    decreases trace.len(),
{
    assert forall|k: int| 0 <= k < trace.len() - 1 implies (#[trigger] trace[k
        + 1].spec_silhouette().rendered()) matches Some(input) && input.scene == snapshot(
        trace[k + 1].spec_storage(),
    ) by {
        assert(drag_move_rel(trace[k], trace[k + 1], xs[k], ys[k]));
    }
    assert forall|k: int| 0 <= k < trace.len() - 1 implies (#[trigger] trace[k
        + 1].spec_light().rendered()) matches Some(input) && input.scene == snapshot(
        trace[k + 1].spec_storage(),
    ) by {
        assert(drag_move_rel(trace[k], trace[k + 1], xs[k], ys[k]));
    }
    if trace.len() > 1 {
        let n = trace.len() as int;
        let prefix = trace.drop_last();
        let pxs = xs.drop_last();
        let pys = ys.drop_last();
        assert forall|k: int| 0 <= k < prefix.len() - 1 implies #[trigger] drag_move_rel(
            prefix[k],
            prefix[k + 1],
            pxs[k],
            pys[k],
        ) by {
            assert(prefix[k] == trace[k]);
            assert(prefix[k + 1] == trace[k + 1]);
            assert(pxs[k] == xs[k]);
            assert(pys[k] == ys[k]);
            assert(drag_move_rel(trace[k], trace[k + 1], xs[k], ys[k]));
        }
        lemma_drag_run_regenerations(prefix, pxs, pys);
        let k = n - 2;
        assert(drag_move_rel(trace[k], trace[k + 1], xs[k], ys[k]));
        assert(trace.last() == trace[k + 1]);
        assert(prefix.last() == trace[k]);
        assert(prefix[0] == trace[0]);
    }
}

/// What one `resize` call does to the scene: shape data and interaction
/// state untouched, both stages recreated at the new size and regenerated
/// in cascade order.
pub open spec fn scene_resize_rel(pre: Shapes, post: Shapes, width: u32, height: u32) -> bool {
    &&& post.spec_storage() == pre.spec_storage()
    &&& post.spec_state() == pre.spec_state()
    &&& silhouette_resize_rel(
        pre.spec_silhouette(),
        post.spec_silhouette(),
        post.spec_storage(),
        width,
        height,
    )
    &&& light_maps_resize_rel(
        pre.spec_light(),
        post.spec_light(),
        post.spec_storage(),
        post.spec_silhouette(),
        width,
        height,
    )
}

} // verus!
