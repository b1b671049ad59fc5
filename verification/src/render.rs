//! The drawing decisions of one render tick: the ordered list of draw
//! calls a live scene requires (background, sprite frames, text overlays)
//! and the rate control of the loop. Performing the draw calls is the
//! backend's work; this module only decides what is drawn, with what, and
//! where.

use vstd::prelude::*;

use crate::config::{ColorConfig, TextConfig};
use crate::scene::{LiveScene, LiveSprite};
use crate::reconcile::spec_frame_duration_ms;

verus! {

/// One draw call of a tick, in issue order: the background stretched to
/// the full canvas, one sprite's current frame at its position and size,
/// or one text overlay in its resolved font and color, drawn unscaled.
/// Image and font fields are asset references, to be resolved against the
/// asset roots and the resource caches.
pub enum DrawOp {
    Background { image: String },
    Sprite { image: String, x: i32, y: i32, width: u32, height: u32 },
    Text { content: String, font: String, size: u16, color: ColorConfig, x: i32, y: i32 },
}

/// The draw call of one sprite: its current frame image at its declared
/// position and size. A sprite without images is not drawn.
pub open spec fn spec_sprite_op(s: LiveSprite) -> DrawOp {
    DrawOp::Sprite {
        image: s.images@[s.current_frame as int],
        x: s.location.x,
        y: s.location.y,
        width: s.size.width,
        height: s.size.height,
    }
}

/// The draw calls of the sprite collection, in list order, skipping
/// sprites without images.
pub open spec fn spec_sprite_ops(sprites: Seq<LiveSprite>) -> Seq<DrawOp>
    decreases sprites.len(),
{
    if sprites.len() == 0 {
        Seq::empty()
    } else {
        let rest = spec_sprite_ops(sprites.drop_last());
        if sprites.last().images@.len() > 0 {
            rest.push(spec_sprite_op(sprites.last()))
        } else {
            rest
        }
    }
}

/// The font family a text entry is drawn with: its own, or the scene's
/// default when it names none.
pub open spec fn spec_text_font(t: TextConfig, default_font: Seq<char>) -> Seq<char> {
    match t.font_family {
        Some(f) => f@,
        None => default_font,
    }
}

/// The color a text entry is drawn with: its own, or opaque black when it
/// names none.
pub open spec fn spec_text_color(t: TextConfig) -> ColorConfig {
    match t.color {
        Some(c) => c,
        None => ColorConfig { r: 0, g: 0, b: 0, a: 255 },
    }
}

/// Whether a draw call renders one text entry with the resolved font and
/// color at the entry's position.
pub open spec fn text_op_matches(op: DrawOp, t: TextConfig, default_font: Seq<char>) -> bool {
    match op {
        DrawOp::Text { content, font, size, color, x, y } => {
            &&& content@ == t.content@
            &&& font@ == spec_text_font(t, default_font)
            &&& size == t.size
            &&& color == spec_text_color(t)
            &&& x == t.location.x
            &&& y == t.location.y
        },
        _ => false,
    }
}

/// The full draw plan of one tick on a live scene: the background first,
/// then every sprite's current frame in list order, then every text entry
/// in list order.
pub open spec fn draw_plan_matches(plan: Seq<DrawOp>, scene: LiveScene) -> bool {
    let sprite_ops = spec_sprite_ops(scene.sprites@);
    let texts = scene.text@;
    &&& plan.len() == 1 + sprite_ops.len() + texts.len()
    &&& plan[0] matches DrawOp::Background { image } && image@ == scene.window.background@
    &&& plan.subrange(1, 1 + sprite_ops.len() as int) == sprite_ops
    &&& forall|i: int|
        0 <= i < texts.len() ==> text_op_matches(
            #[trigger] plan[1 + sprite_ops.len() + i],
            texts[i],
            scene.default_font@,
        )
}

/// Decides the draw calls of one tick: background, sprite frames in list
/// order (sprites without images skipped), text overlays in list order
/// with explicit or default font and explicit or default color.
pub fn draw_plan(scene: &LiveScene) -> (plan: Vec<DrawOp>)
    requires
        scene.wf(),
    ensures
        draw_plan_matches(plan@, *scene),
{
    let mut plan: Vec<DrawOp> = Vec::new();
    plan.push(DrawOp::Background { image: scene.window.background.clone() });
    let ghost base = plan@;
    let mut i: usize = 0;
    proof {
        assert(scene.sprites@.take(0) =~= Seq::<LiveSprite>::empty());
        assert(base.subrange(1, 1) =~= spec_sprite_ops(scene.sprites@.take(0)));
    }
    while i < scene.sprites.len()
        invariant
            i <= scene.sprites@.len(),
            scene.wf(),
            plan@.len() == 1 + spec_sprite_ops(scene.sprites@.take(i as int)).len(),
            plan@[0] == base[0],
            base.len() == 1,
            plan@.subrange(1, plan@.len() as int) == spec_sprite_ops(
                scene.sprites@.take(i as int),
            ),
        decreases scene.sprites@.len() - i,
    {
        let ghost prev = plan@;
        proof {
            assert(scene.sprites@.take(i as int + 1).drop_last() =~= scene.sprites@.take(i as int));
            assert(scene.sprites@.take(i as int + 1).last() == scene.sprites@[i as int]);
            assert(scene.sprites@[i as int].wf());
        }
        let s = &scene.sprites[i];
        if s.images.len() > 0 {
            let op = DrawOp::Sprite {
                image: s.images[s.current_frame].clone(),
                x: s.location.x,
                y: s.location.y,
                width: s.size.width,
                height: s.size.height,
            };
            proof {
                assert(op == spec_sprite_op(scene.sprites@[i as int]));
            }
            plan.push(op);
        }
        proof {
            assert(plan@.subrange(1, plan@.len() as int) =~= spec_sprite_ops(
                scene.sprites@.take(i as int + 1),
            ));
        }
        i = i + 1;
    }
    proof {
        assert(scene.sprites@.take(scene.sprites@.len() as int) =~= scene.sprites@);
    }
    let ghost after_sprites = plan@;
    let mut j: usize = 0;
    while j < scene.text.len()
        invariant
            j <= scene.text@.len(),
            plan@.len() == after_sprites.len() + j,
            plan@.subrange(0, after_sprites.len() as int) == after_sprites,
            forall|k: int|
                0 <= k < j ==> text_op_matches(
                    #[trigger] plan@[after_sprites.len() + k],
                    scene.text@[k],
                    scene.default_font@,
                ),
        decreases scene.text@.len() - j,
    {
        let ghost prev = plan@;
        let t = &scene.text[j];
        let font: String = match &t.font_family {
            Some(f) => f.clone(),
            None => scene.default_font.clone(),
        };
        let color: ColorConfig = match &t.color {
            Some(c) => ColorConfig { r: c.r, g: c.g, b: c.b, a: c.a },
            None => ColorConfig { r: 0, g: 0, b: 0, a: 255 },
        };
        let op = DrawOp::Text {
            content: t.content.clone(),
            font,
            size: t.size,
            color,
            x: t.location.x,
            y: t.location.y,
        };
        proof {
            assert(text_op_matches(op, scene.text@[j as int], scene.default_font@));
        }
        plan.push(op);
        proof {
            assert(plan@.subrange(0, after_sprites.len() as int) =~= prev.subrange(
                0,
                after_sprites.len() as int,
            ));
        }
        j = j + 1;
    }
    proof {
        assert(plan@.subrange(1, 1 + spec_sprite_ops(scene.sprites@).len() as int)
            =~= after_sprites.subrange(1, after_sprites.len() as int));
    }
    plan
}

/// The tick duration used before any snapshot has arrived: the duration of
/// a 60 frames-per-second cadence.
pub fn fallback_frame_duration_ms() -> (d: u64)
    ensures
        d == spec_frame_duration_ms(60u64),
{
    1000 / 60
}

/// How long the loop sleeps at the end of a tick: the remainder of the
/// frame duration after the time this tick took, and nothing when the tick
/// already ran long.
pub fn sleep_duration_ms(frame_duration: u64, elapsed: u64) -> (d: u64)
    ensures
        d == if elapsed >= frame_duration {
            0u64
        } else {
            (frame_duration - elapsed) as u64
        },
{
    if elapsed >= frame_duration {
        0
    } else {
        frame_duration - elapsed
    }
}

} // verus!
