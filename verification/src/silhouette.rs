//! The silhouette stage: a full-screen pass that reads the shape store
//! and writes two co-located targets, a signed-distance field and a tint
//! accumulation buffer. This module keeps the stage's model — target
//! size, how many times the pass ran, and which scene data the current
//! targets were generated from; the textures themselves live on the GPU
//! side.

use vstd::prelude::*;

use crate::store::{snapshot, SceneSnapshot, ShapesStorage};

verus! {

/// Everything the silhouette pass's output is a function of: the scene
/// data it read and the size of the targets it wrote. Equal inputs give
/// bit-identical texture contents.
pub ghost struct SilhouetteInput {
    pub scene: SceneSnapshot,
    pub width: u32,
    pub height: u32,
}

/// The input a silhouette pass running now against `s` would consume.
pub open spec fn silhouette_input(s: ShapesStorage, width: u32, height: u32) -> SilhouetteInput {
    SilhouetteInput { scene: snapshot(s), width, height }
}

/// Model of the silhouette stage and its two render targets.
pub struct SilhouetteSdf {
    width: u32,
    height: u32,
    generations: u64,
    rendered: Ghost<Option<SilhouetteInput>>,
}

impl SilhouetteSdf {
    /// Width of the current targets, in pixels.
    pub closed spec fn spec_width(&self) -> u32 {
        self.width
    }

    /// Height of the current targets, in pixels.
    pub closed spec fn spec_height(&self) -> u32 {
        self.height
    }

    /// How many times the generation pass has run.
    pub closed spec fn spec_generations(&self) -> u64 {
        self.generations
    }

    /// The input the current target contents were generated from; `None`
    /// until the first pass runs (the targets are still cleared).
    pub closed spec fn rendered(&self) -> Option<SilhouetteInput> {
        self.rendered@
    }

    /// Creates the stage with freshly allocated, not yet generated
    /// targets of the given size.
    pub fn new(width: u32, height: u32) -> (stage: Self)
        ensures
            stage.spec_width() == width,
            stage.spec_height() == height,
            stage.spec_generations() == 0,
            stage.rendered() is None,
    {
        SilhouetteSdf { width, height, generations: 0, rendered: Ghost(None) }
    }

    /// Unconditional full regeneration: after this pass the targets hold
    /// exactly the output for the store's current contents at the current
    /// target size.
    pub fn generate(&mut self, store: &ShapesStorage)
        requires
            store.wf(),
            store.gpu_init(),
            old(self).spec_generations() < u64::MAX,
        ensures
            final(self).spec_width() == old(self).spec_width(),
            final(self).spec_height() == old(self).spec_height(),
            final(self).spec_generations() == old(self).spec_generations() + 1,
            final(self).rendered() == Some(
                silhouette_input(*store, old(self).spec_width(), old(self).spec_height()),
            ),
    {
        self.generations = self.generations + 1;
        self.rendered = Ghost(Some(silhouette_input(*store, self.width, self.height)));
    }

    /// Recreates the targets at a new size, then regenerates them. Old
    /// target handles are invalid from here on.
    pub fn resize(&mut self, store: &ShapesStorage, width: u32, height: u32)
        requires
            store.wf(),
            store.gpu_init(),
            old(self).spec_generations() < u64::MAX,
        ensures
            silhouette_resize_rel(*old(self), *final(self), *store, width, height),
    {
        self.width = width;
        self.height = height;
        self.generate(store);
    }

    pub fn width(&self) -> (w: u32)
        ensures
            w == self.spec_width(),
    {
        self.width
    }

    pub fn height(&self) -> (h: u32)
        ensures
            h == self.spec_height(),
    {
        self.height
    }

    pub fn generations(&self) -> (n: u64)
        ensures
            n == self.spec_generations(),
    {
        self.generations
    }
}

/// What one `resize` call does to the stage, given the store it read.
pub open spec fn silhouette_resize_rel(
    pre: SilhouetteSdf,
    post: SilhouetteSdf,
    store: ShapesStorage,
    width: u32,
    height: u32,
) -> bool {
    &&& post.spec_width() == width
    &&& post.spec_height() == height
    &&& post.spec_generations() == pre.spec_generations() + 1
    &&& post.rendered() == Some(silhouette_input(store, width, height))
}

/// Law: the stage's target contents are a function of the scene data and
/// the target size alone, so resizing twice in a row with the same size
/// and unchanged shape data leaves bit-identical contents to resizing
/// once.
pub proof fn lemma_silhouette_resize_idempotent(
    s0: SilhouetteSdf,
    s1: SilhouetteSdf,
    s2: SilhouetteSdf,
    store: ShapesStorage,
    width: u32,
    height: u32,
)
    requires
        silhouette_resize_rel(s0, s1, store, width, height),
        silhouette_resize_rel(s1, s2, store, width, height),
    ensures
        s1.rendered() == s2.rendered(),
        s1.spec_width() == s2.spec_width(),
        s1.spec_height() == s2.spec_height(),
{
}

} // verus!
