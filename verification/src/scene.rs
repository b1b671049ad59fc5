//! The live scene: the renderer's persistent, mutable scene state, created
//! on the first successful reconciliation and mutated in place by every
//! later one and by the animation clock.

use vstd::prelude::*;

use crate::config::{Point, SpriteSize, TextConfig, WindowConfig};

verus! {

/// One sprite of the live scene: the descriptive fields of its latest
/// snapshot together with its animation state, which survives
/// reconciliations.
pub struct LiveSprite {
    pub id: String,
    pub images: Vec<String>,
    pub location: Point,
    pub size: SpriteSize,
    /// Minimum display duration of one frame, in milliseconds.
    pub frame_delay: u64,
    /// Index of the frame currently shown; always a valid index into
    /// `images` while that list is non-empty, and 0 otherwise.
    pub current_frame: usize,
    /// Milliseconds accumulated since the frame last advanced.
    pub last_update: u128,
}

impl LiveSprite {
    /// Well-formedness: the current frame is a valid index into the image
    /// list (0 when the list is empty), and the accumulated time is small
    /// enough that adding one tick's delta cannot overflow its field.
    /// Every operation of the library keeps the accumulated time at or
    /// below the largest single-tick delta, so the bound is invariant.
    pub open spec fn wf(self) -> bool {
        &&& if self.images@.len() == 0 {
            self.current_frame == 0
        } else {
            self.current_frame < self.images@.len()
        }
        &&& self.last_update <= u64::MAX
    }
}

/// The persistent live scene: the latest window configuration, the keyed
/// sprite collection, the current text overlays, the scene's default font,
/// and the frame duration derived from the latest snapshot's frame rate.
pub struct LiveScene {
    pub window: WindowConfig,
    pub sprites: Vec<LiveSprite>,
    pub text: Vec<TextConfig>,
    pub default_font: String,
    /// Target duration of one tick, in milliseconds.
    pub frame_duration_ms: u64,
}

impl LiveScene {
    /// Well-formedness: every sprite is well-formed.
    pub open spec fn wf(self) -> bool {
        forall|i: int| 0 <= i < self.sprites@.len() ==> (#[trigger] self.sprites@[i]).wf()
    }
}

/// The sprites of an optional live scene; the empty sequence before the
/// first snapshot has arrived.
pub open spec fn sprites_of(scene: Option<LiveScene>) -> Seq<LiveSprite> {
    match scene {
        Some(s) => s.sprites@,
        None => Seq::empty(),
    }
}

} // verus!
