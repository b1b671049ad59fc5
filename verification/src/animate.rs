//! The animation clock: advances each live sprite's frame index from the
//! wall-clock time elapsed since the previous tick.

use vstd::prelude::*;
use vstd::pervasive::VecAdditionalExecFns;

use crate::config::{Point, SpriteSize};
use crate::scene::{LiveScene, LiveSprite};

verus! {

/// One sprite after one tick of the animation clock with elapsed time
/// `delta` milliseconds. A sprite with zero or one frame never advances and
/// is left untouched. Otherwise its minimum display duration is clamped to
/// at least 1 ms and the delta is added to its accumulated time; when the
/// accumulated time reaches the minimum display duration, the frame index
/// advances cyclically by one and the accumulated time resets to zero — the
/// remainder beyond the threshold is discarded, not carried forward.
pub open spec fn advanced_sprite(s: LiveSprite, delta: u64) -> LiveSprite {
    if s.images@.len() <= 1 {
        s
    } else {
        let delay = if s.frame_delay >= 1 {
            s.frame_delay
        } else {
            1u64
        };
        if s.last_update + delta >= delay {
            LiveSprite {
                frame_delay: delay,
                current_frame: (((s.current_frame + 1) as nat) % s.images@.len()) as usize,
                last_update: 0,
                ..s
            }
        } else {
            LiveSprite {
                frame_delay: delay,
                last_update: (s.last_update + delta) as u128,
                ..s
            }
        }
    }
}

/// Advances one sprite by `delta` elapsed milliseconds.
pub fn advance_sprite(s: &mut LiveSprite, delta: u64)
    requires
        old(s).wf(),
    ensures
        *final(s) == advanced_sprite(*old(s), delta),
        final(s).wf(),
{
    if s.images.len() > 1 {
        if s.frame_delay < 1 {
            s.frame_delay = 1;
        }
        let acc: u128 = s.last_update + (delta as u128);
        if acc >= s.frame_delay as u128 {
            s.current_frame = (s.current_frame + 1) % s.images.len();
            s.last_update = 0;
        } else {
            s.last_update = acc;
        }
    }
}

/// The sprite collection after one tick of the animation clock.
pub open spec fn advanced_sprites(sprites: Seq<LiveSprite>, delta: u64) -> Seq<LiveSprite> {
    Seq::new(sprites.len(), |i: int| advanced_sprite(sprites[i], delta))
}

/// Advances every sprite of the live scene by `delta` elapsed milliseconds;
/// nothing else of the scene changes.
pub fn advance_scene(scene: &mut LiveScene, delta: u64)
    requires
        old(scene).wf(),
    ensures
        final(scene).wf(),
        final(scene).sprites@ == advanced_sprites(old(scene).sprites@, delta),
        final(scene).window == old(scene).window,
        final(scene).text == old(scene).text,
        final(scene).default_font == old(scene).default_font,
        final(scene).frame_duration_ms == old(scene).frame_duration_ms,
{
    let ghost orig = scene.sprites@;
    let mut i: usize = 0;
    while i < scene.sprites.len()
        invariant
            i <= scene.sprites@.len(),
            scene.sprites@.len() == orig.len(),
            forall|j: int| 0 <= j < i ==> scene.sprites@[j] == advanced_sprite(orig[j], delta),
            forall|j: int| i <= j < orig.len() ==> scene.sprites@[j] == orig[j],
            forall|j: int| 0 <= j < orig.len() ==> (#[trigger] orig[j]).wf(),
            forall|j: int| 0 <= j < i ==> (#[trigger] scene.sprites@[j]).wf(),
            scene.window == old(scene).window,
            scene.text == old(scene).text,
            scene.default_font == old(scene).default_font,
            scene.frame_duration_ms == old(scene).frame_duration_ms,
            orig == old(scene).sprites@,
        decreases orig.len() - i,
    {
        let mut sp = LiveSprite {
            id: String::new(),
            images: Vec::new(),
            location: Point { x: 0, y: 0 },
            size: SpriteSize { width: 0, height: 0 },
            frame_delay: 0,
            current_frame: 0,
            last_update: 0,
        };
        scene.sprites.set_and_swap(i, &mut sp);
        proof {
            assert(sp == orig[i as int]);
            assert(orig[i as int].wf());
        }
        advance_sprite(&mut sp, delta);
        scene.sprites.set(i, sp);
        i = i + 1;
    }
    proof {
        assert(scene.sprites@ =~= advanced_sprites(old(scene).sprites@, delta));
    }
}

} // verus!
