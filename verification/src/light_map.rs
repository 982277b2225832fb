//! The light-map stage: a full-screen pass that reads the shape store
//! *and* the silhouette stage's output, and writes a normal/light
//! texture. Because it consumes the silhouette targets, it must run after
//! them in every regeneration cascade; its model records which silhouette
//! output it last read, so a stale ordering is visible as a mismatched
//! input.

use vstd::prelude::*;

use crate::silhouette::{SilhouetteInput, SilhouetteSdf};
use crate::store::{snapshot, SceneSnapshot, ShapesStorage};

verus! {

/// Everything the light-map pass's output is a function of: the scene
/// data, the silhouette output it sampled, and the target size.
pub ghost struct LightMapsInput {
    pub scene: SceneSnapshot,
    pub silhouette: Option<SilhouetteInput>,
    pub width: u32,
    pub height: u32,
}

/// The input a light-map pass running now would consume.
pub open spec fn light_maps_input(
    s: ShapesStorage,
    silhouette: SilhouetteSdf,
    width: u32,
    height: u32,
) -> LightMapsInput {
    LightMapsInput { scene: snapshot(s), silhouette: silhouette.rendered(), width, height }
}

/// Model of the light-map stage and its render target.
pub struct LightMaps {
    width: u32,
    height: u32,
    generations: u64,
    rendered: Ghost<Option<LightMapsInput>>,
}

impl LightMaps {
    pub closed spec fn spec_width(&self) -> u32 {
        self.width
    }

    pub closed spec fn spec_height(&self) -> u32 {
        self.height
    }

    /// How many times the generation pass has run.
    pub closed spec fn spec_generations(&self) -> u64 {
        self.generations
    }

    /// The input the current target contents were generated from; `None`
    /// until the first pass runs.
    pub closed spec fn rendered(&self) -> Option<LightMapsInput> {
        self.rendered@
    }

    /// Creates the stage with a freshly allocated, not yet generated
    /// target of the given size.
    pub fn new(width: u32, height: u32) -> (stage: Self)
        ensures
            stage.spec_width() == width,
            stage.spec_height() == height,
            stage.spec_generations() == 0,
            stage.rendered() is None,
    {
        LightMaps { width, height, generations: 0, rendered: Ghost(None) }
    }

    /// Unconditional full regeneration against the store and the
    /// silhouette output as they stand now.
    pub fn generate(&mut self, store: &ShapesStorage, silhouette: &SilhouetteSdf)
        requires
            store.wf(),
            store.gpu_init(),
            old(self).spec_generations() < u64::MAX,
        ensures
            final(self).spec_width() == old(self).spec_width(),
            final(self).spec_height() == old(self).spec_height(),
            final(self).spec_generations() == old(self).spec_generations() + 1,
            final(self).rendered() == Some(
                light_maps_input(
                    *store,
                    *silhouette,
                    old(self).spec_width(),
                    old(self).spec_height(),
                ),
            ),
    {
        self.generations = self.generations + 1;
        self.rendered = Ghost(Some(light_maps_input(*store, *silhouette, self.width, self.height)));
    }

    /// Recreates the target at a new size, then regenerates it. Old
    /// target handles are invalid from here on.
    pub fn resize(&mut self, store: &ShapesStorage, silhouette: &SilhouetteSdf, width: u32, height: u32)
        requires
            store.wf(),
            store.gpu_init(),
            old(self).spec_generations() < u64::MAX,
        ensures
            light_maps_resize_rel(*old(self), *final(self), *store, *silhouette, width, height),
    {
        self.width = width;
        self.height = height;
        self.generate(store, silhouette);
    }

    pub fn width(&self) -> (w: u32)
        ensures
            w == self.spec_width(),
    {
        self.width
    }

    pub fn height(&self) -> (h: u32)
        ensures
            h == self.spec_height(),
    {
        self.height
    }

    pub fn generations(&self) -> (n: u64)
        ensures
            n == self.spec_generations(),
    {
        self.generations
    }
}

/// What one `resize` call does to the stage, given the store and
/// silhouette stage it read.
pub open spec fn light_maps_resize_rel(
    pre: LightMaps,
    post: LightMaps,
    store: ShapesStorage,
    silhouette: SilhouetteSdf,
    width: u32,
    height: u32,
) -> bool {
    &&& post.spec_width() == width
    &&& post.spec_height() == height
    &&& post.spec_generations() == pre.spec_generations() + 1
    &&& post.rendered() == Some(light_maps_input(store, silhouette, width, height))
}

/// Law: like the silhouette stage, the light map's contents are a
/// function of what the pass read and the target size alone; two
/// back-to-back resizes to the same size over unchanged inputs leave
/// bit-identical contents.
pub proof fn lemma_light_maps_resize_idempotent(
    s0: LightMaps,
    s1: LightMaps,
    s2: LightMaps,
    store: ShapesStorage,
    silhouette: SilhouetteSdf,
    width: u32,
    height: u32,
)
    requires
        light_maps_resize_rel(s0, s1, store, silhouette, width, height),
        light_maps_resize_rel(s1, s2, store, silhouette, width, height),
    ensures
        s1.rendered() == s2.rendered(),
        s1.spec_width() == s2.spec_width(),
        s1.spec_height() == s2.spec_height(),
{
}

} // verus!
