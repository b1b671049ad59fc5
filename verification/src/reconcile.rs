//! Scene reconciliation: the identity-keyed merge of an incoming snapshot
//! into the live scene, preserving each surviving sprite's animation state,
//! together with the side-effect decisions gated on a merge (resize, title,
//! one-time icon) and the derived frame duration.

use vstd::prelude::*;
use vstd::arithmetic::div_mod::lemma_small_mod;

use crate::config::{GameState, SpriteConfig};
use crate::scene::{sprites_of, LiveScene, LiveSprite};

verus! {

/// The first sprite of `sprites` whose identity key is `id`, if any.
pub open spec fn find_sprite(sprites: Seq<LiveSprite>, id: Seq<char>) -> Option<LiveSprite>
    decreases sprites.len(),
{
    if sprites.len() == 0 {
        None
    } else if sprites[0].id@ == id {
        Some(sprites[0])
    } else {
        find_sprite(sprites.drop_first(), id)
    }
}

/// The search comes back empty exactly when no sprite carries the identity.
pub proof fn lemma_find_sprite_none(sprites: Seq<LiveSprite>, id: Seq<char>)
    ensures
        find_sprite(sprites, id) is None <==> (forall|i: int|
            0 <= i < sprites.len() ==> (#[trigger] sprites[i]).id@ != id),
    decreases sprites.len(),
{
    if sprites.len() > 0 && sprites[0].id@ != id {
        let rest = sprites.drop_first();
        lemma_find_sprite_none(rest, id);
        if forall|i: int| 0 <= i < rest.len() ==> (#[trigger] rest[i]).id@ != id {
            assert forall|i: int| 0 <= i < sprites.len() implies (#[trigger] sprites[i]).id@
                != id by {
                if i > 0 {
                    assert(rest[i - 1] == sprites[i]);
                }
            }
        } else {
            let w = choose|i: int| 0 <= i < rest.len() && (#[trigger] rest[i]).id@ == id;
            assert(sprites[w + 1].id@ == id);
        }
    }
}

/// The frame index a surviving sprite carries into its new image list:
/// unchanged while still a valid index, reduced modulo the new list's
/// length when that list shrank below it, and 0 for an empty list.
pub open spec fn carried_frame(frame: usize, len: nat) -> usize {
    if len == 0 {
        0usize
    } else {
        (frame as nat % len) as usize
    }
}

/// The live sprite that one incoming sprite description becomes: a carrier
/// of the prior sprite's animation state when the identity already lives in
/// the scene, and a fresh sprite at frame 0 with no accumulated time
/// otherwise.
pub open spec fn merge_one(old_sprites: Seq<LiveSprite>, cfg: SpriteConfig) -> LiveSprite {
    match find_sprite(old_sprites, cfg.id@) {
        Some(prior) => LiveSprite {
            id: cfg.id,
            images: cfg.images,
            location: cfg.location,
            size: cfg.size,
            frame_delay: cfg.frame_delay,
            current_frame: carried_frame(prior.current_frame, cfg.images@.len()),
            last_update: prior.last_update,
        },
        None => LiveSprite {
            id: cfg.id,
            images: cfg.images,
            location: cfg.location,
            size: cfg.size,
            frame_delay: cfg.frame_delay,
            current_frame: 0,
            last_update: 0,
        },
    }
}

/// The sprite collection after a merge: the incoming snapshot's sprites in
/// the incoming order, each merged against the prior collection.
pub open spec fn merged_sprites(
    old_sprites: Seq<LiveSprite>,
    new: Seq<SpriteConfig>,
) -> Seq<LiveSprite> {
    Seq::new(new.len(), |i: int| merge_one(old_sprites, new[i]))
}

/// Index of the first sprite of `sprites` whose identity key is `id`,
/// related to the spec-level search.
fn find_live_sprite(sprites: &Vec<LiveSprite>, id: &String) -> (r: Option<usize>)
    ensures
        match r {
            Some(i) => i < sprites@.len() && find_sprite(sprites@, id@) == Some(
                sprites@[i as int],
            ),
            None => find_sprite(sprites@, id@) is None,
        },
{
    let mut i: usize = 0;
    proof {
        assert(sprites@.skip(0) =~= sprites@);
    }
    while i < sprites.len()
        invariant
            i <= sprites@.len(),
            find_sprite(sprites@, id@) == find_sprite(sprites@.skip(i as int), id@),
        decreases sprites@.len() - i,
    {
        proof {
            assert(sprites@.skip(i as int)[0] == sprites@[i as int]);
        }
        if sprites[i].id == *id {
            return Some(i);
        }
        proof {
            assert(sprites@.skip(i as int).drop_first() =~= sprites@.skip(i as int + 1));
        }
        i = i + 1;
    }
    proof {
        assert(sprites@.skip(sprites@.len() as int).len() == 0);
    }
    None
}

/// Merges the incoming snapshot's sprite list against the prior live
/// sprites: each incoming sprite keeps the animation state of the prior
/// sprite with its identity, or starts fresh; the result follows the
/// incoming order, and identities absent from the incoming list are gone.
pub fn reconcile_sprites(old_sprites: &Vec<LiveSprite>, new: Vec<SpriteConfig>) -> (r: Vec<
    LiveSprite,
>)
    requires
        forall|i: int| 0 <= i < old_sprites@.len() ==> (#[trigger] old_sprites@[i]).wf(),
    ensures
        r@ == merged_sprites(old_sprites@, new@),
        forall|i: int| 0 <= i < r@.len() ==> (#[trigger] r@[i]).wf(),
{
    let ghost orig = new@;
    let mut rest = new;
    let mut r: Vec<LiveSprite> = Vec::new();
    while rest.len() > 0
        invariant
            r@.len() + rest@.len() == orig.len(),
            rest@ == orig.skip(r@.len() as int),
            forall|j: int| 0 <= j < r@.len() ==> r@[j] == merge_one(old_sprites@, orig[j]),
            forall|j: int| 0 <= j < r@.len() ==> (#[trigger] r@[j]).wf(),
            forall|i: int| 0 <= i < old_sprites@.len() ==> (#[trigger] old_sprites@[i]).wf(),
        decreases rest@.len(),
    {
        let ghost k = r@.len() as int;
        proof {
            assert(rest@[0] == orig[k]);
            assert(orig.skip(k).drop_first() =~= orig.skip(k + 1));
            assert(orig.skip(k).remove(0) =~= orig.skip(k).drop_first());
        }
        let cfg = rest.remove(0);
        let sprite = match find_live_sprite(old_sprites, &cfg.id) {
            Some(i) => {
                let prior = &old_sprites[i];
                let frame: usize = if cfg.images.len() == 0 {
                    0
                } else {
                    prior.current_frame % cfg.images.len()
                };
                LiveSprite {
                    id: cfg.id,
                    images: cfg.images,
                    location: cfg.location,
                    size: cfg.size,
                    frame_delay: cfg.frame_delay,
                    current_frame: frame,
                    last_update: prior.last_update,
                }
            },
            None => LiveSprite {
                id: cfg.id,
                images: cfg.images,
                location: cfg.location,
                size: cfg.size,
                frame_delay: cfg.frame_delay,
                current_frame: 0,
                last_update: 0,
            },
        };
        proof {
            assert(sprite == merge_one(old_sprites@, orig[k]));
        }
        r.push(sprite);
    }
    proof {
        assert(r@ =~= merged_sprites(old_sprites@, new@));
    }
    r
}

/// The target duration of one tick derived from a frame rate, in integer
/// milliseconds.
pub open spec fn spec_frame_duration_ms(fps: u64) -> u64
    recommends
        fps > 0,
{
    ((1000 as int) / (fps as int)) as u64
}

/// Recomputes the tick duration from a snapshot's frame rate.
pub fn frame_duration_ms(fps: u64) -> (d: u64)
    requires
        fps > 0,
    ensures
        d == spec_frame_duration_ms(fps),
{
    1000 / fps
}

/// What the render loop knows of the windowing backend: the current canvas
/// size and whether the window icon has been applied since process start.
pub struct BackendState {
    pub canvas_width: u32,
    pub canvas_height: u32,
    pub icon_applied: bool,
}

/// The backend requests a reconciliation issues: a resize only when the
/// declared size differs from the current canvas size, the title on every
/// merge, and the icon exactly once after process start.
pub struct SideEffects {
    pub resize: Option<(u32, u32)>,
    pub title: String,
    pub icon: Option<String>,
}

/// Whether a snapshot's declared window size differs from the current
/// canvas size, so that a backend resize must be requested.
pub open spec fn resize_needed(backend: BackendState, snap: GameState) -> bool {
    snap.window.width != backend.canvas_width || snap.window.height != backend.canvas_height
}

/// The backend knowledge after a merge of `snap`: the canvas carries the
/// declared size and the icon has been applied.
pub open spec fn backend_after(backend: BackendState, snap: GameState) -> BackendState {
    BackendState {
        canvas_width: snap.window.width,
        canvas_height: snap.window.height,
        icon_applied: true,
    }
}

/// Merges one decoded snapshot into the live scene and decides the backend
/// side effects of this merge. The window configuration, text list and
/// default font are replaced wholesale; the frame duration is recomputed
/// from the snapshot's frame rate; sprites are merged by identity with
/// animation state preserved.
pub fn apply_snapshot(scene: Option<LiveScene>, backend: &mut BackendState, snap: GameState) -> (r:
    (LiveScene, SideEffects))
    requires
        scene matches Some(s) ==> s.wf(),
        snap.spec_fps() > 0,
    ensures
        r.0.wf(),
        r.0.window == snap.window,
        r.0.sprites@ == merged_sprites(sprites_of(scene), snap.sprites@),
        r.0.text == snap.text,
        r.0.default_font == snap.default_font,
        r.0.frame_duration_ms == spec_frame_duration_ms(snap.spec_fps()),
        r.1.resize == if resize_needed(*old(backend), snap) {
            Some((snap.window.width, snap.window.height))
        } else {
            None::<(u32, u32)>
        },
        r.1.title == snap.window.title,
        r.1.icon == if old(backend).icon_applied {
            None::<String>
        } else {
            Some(snap.window.icon_path)
        },
        *final(backend) == backend_after(*old(backend), snap),
{
    let resize: Option<(u32, u32)> = if snap.window.width != backend.canvas_width
        || snap.window.height != backend.canvas_height {
        Some((snap.window.width, snap.window.height))
    } else {
        None
    };
    backend.canvas_width = snap.window.width;
    backend.canvas_height = snap.window.height;
    let icon: Option<String> = if backend.icon_applied {
        None
    } else {
        Some(snap.window.icon_path.clone())
    };
    backend.icon_applied = true;
    let title = snap.window.title.clone();
    let duration = frame_duration_ms(snap.fps());
    let merged = match &scene {
        Some(s) => reconcile_sprites(&s.sprites, snap.sprites),
        None => {
            let none_sprites: Vec<LiveSprite> = Vec::new();
            proof {
                assert(none_sprites@ =~= sprites_of(scene));
            }
            reconcile_sprites(&none_sprites, snap.sprites)
        },
    };
    let updated = LiveScene {
        window: snap.window,
        sprites: merged,
        text: snap.text,
        default_font: snap.default_font,
        frame_duration_ms: duration,
    };
    (updated, SideEffects { resize, title, icon })
}

/// Law: a sprite identity present in both the prior live scene and a new
/// snapshot keeps its current frame index and accumulated time across the
/// merge, and takes every descriptive field from the snapshot. The carried
/// frame index must still be a valid index of the incoming image list; a
/// snapshot that shrinks the list below it instead reduces the index modulo
/// the new length.
pub proof fn lemma_merge_preserves_continuity(
    old_sprites: Seq<LiveSprite>,
    new: Seq<SpriteConfig>,
    j: int,
)
    requires
        0 <= j < new.len(),
        find_sprite(old_sprites, new[j].id@) is Some,
        find_sprite(old_sprites, new[j].id@)->Some_0.current_frame < new[j].images@.len(),
    ensures
        merged_sprites(old_sprites, new)[j].current_frame == find_sprite(
            old_sprites,
            new[j].id@,
        )->Some_0.current_frame,
        merged_sprites(old_sprites, new)[j].last_update == find_sprite(
            old_sprites,
            new[j].id@,
        )->Some_0.last_update,
        merged_sprites(old_sprites, new)[j].id == new[j].id,
        merged_sprites(old_sprites, new)[j].images == new[j].images,
        merged_sprites(old_sprites, new)[j].location == new[j].location,
        merged_sprites(old_sprites, new)[j].size == new[j].size,
        merged_sprites(old_sprites, new)[j].frame_delay == new[j].frame_delay,
{
    let prior = find_sprite(old_sprites, new[j].id@)->Some_0;
    lemma_small_mod(prior.current_frame as nat, new[j].images@.len());
}

/// Law: a sprite identity present only in the new snapshot starts at frame
/// index 0 with accumulated time 0, and takes every descriptive field from
/// the snapshot.
pub proof fn lemma_merge_new_sprite_starts_at_zero(
    old_sprites: Seq<LiveSprite>,
    new: Seq<SpriteConfig>,
    j: int,
)
    requires
        0 <= j < new.len(),
        forall|i: int| 0 <= i < old_sprites.len() ==> (#[trigger] old_sprites[i]).id@ != new[j].id@,
    ensures
        merged_sprites(old_sprites, new)[j].current_frame == 0,
        merged_sprites(old_sprites, new)[j].last_update == 0,
        merged_sprites(old_sprites, new)[j].id == new[j].id,
        merged_sprites(old_sprites, new)[j].images == new[j].images,
        merged_sprites(old_sprites, new)[j].location == new[j].location,
        merged_sprites(old_sprites, new)[j].size == new[j].size,
        merged_sprites(old_sprites, new)[j].frame_delay == new[j].frame_delay,
{
    lemma_find_sprite_none(old_sprites, new[j].id@);
}

/// Law: a sprite identity absent from the new snapshot is absent from the
/// merged scene, whether or not the prior scene carried it.
pub proof fn lemma_merge_drops_absent(
    old_sprites: Seq<LiveSprite>,
    new: Seq<SpriteConfig>,
    id: Seq<char>,
)
    requires
        forall|j: int| 0 <= j < new.len() ==> (#[trigger] new[j]).id@ != id,
    ensures
        forall|j: int|
            0 <= j < merged_sprites(old_sprites, new).len() ==> (#[trigger] merged_sprites(
                old_sprites,
                new,
            )[j]).id@ != id,
{
}

/// Law: after a merge of a snapshot, a second snapshot declaring the same
/// window size needs no backend resize.
pub proof fn lemma_resize_idempotent(backend: BackendState, s1: GameState, s2: GameState)
    requires
        s2.window.width == s1.window.width,
        s2.window.height == s1.window.height,
    ensures
        !resize_needed(backend_after(backend, s1), s2),
{
}

} // verus!
