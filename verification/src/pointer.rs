//! Pointer interaction state: the result of a hit test and the four-state
//! protocol a scene runs through while the cursor hovers, presses and
//! drags its shapes.

use vstd::prelude::*;

use crate::geometry::Vec2;

verus! {

/// A successful hit: which shape was found and where inside its bounding
/// box the query point fell, relative to the box's minimum corner.
#[derive(Copy, Clone, Debug, PartialEq, Eq, Structural)]
pub struct PointerHit {
    pub index: usize,
    pub local_position: Vec2,
}

/// The interaction protocol's state. `Hovered` and `Pressed` remember the
/// cursor's offset inside the shape's bounding box; `Dragging` remembers
/// the offset captured at press time, which every drag step subtracts from
/// the cursor to place the box's minimum corner.
#[derive(Copy, Clone, Debug, PartialEq, Eq, Structural)]
pub enum PointerState {
    Idle,
    Hovered { index: usize, hover_position: Vec2 },
    Pressed { index: usize, press_position: Vec2 },
    Dragging { index: usize, press_position: Vec2 },
}

impl Default for PointerState {
    fn default() -> (s: Self)
        ensures
            s is Idle,
    {
        PointerState::Idle
    }
}

impl PointerState {
    /// Takes the current state out, leaving `Idle` behind.
    pub fn take(&mut self) -> (s: Self)
        ensures
            s == *old(self),
            *final(self) is Idle,
    {
        let s = *self;
        *self = PointerState::Idle;
        s
    }
}

/// The coarse pointer state tag handed to the glass shaders, one numeric
/// constant per protocol state.
#[derive(Copy, Clone, Debug, PartialEq, Eq, Structural)]
pub enum GlassPointerState {
    Idle,
    Hovered,
    Pressed,
    Dragging,
}

impl Default for GlassPointerState {
    fn default() -> (s: Self)
        ensures
            s is Idle,
    {
        GlassPointerState::Idle
    }
}

impl GlassPointerState {
    /// The numeric tag the shaders receive for this state.
    pub fn shader_constant(&self) -> (c: u32)
        ensures
            c == match *self {
                GlassPointerState::Idle => 0u32,
                GlassPointerState::Hovered => 1u32,
                GlassPointerState::Pressed => 2u32,
                GlassPointerState::Dragging => 3u32,
            },
    {
        match self {
            GlassPointerState::Idle => 0,
            GlassPointerState::Hovered => 1,
            GlassPointerState::Pressed => 2,
            GlassPointerState::Dragging => 3,
        }
    }
}

} // verus!
