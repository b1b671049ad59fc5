use scene_renderer::config::{GameState, Point, SpriteConfig, SpriteSize, TextConfig, WindowConfig};
use scene_renderer::reconcile::{apply_snapshot, frame_duration_ms, BackendState};
use scene_renderer::scene::LiveSprite;

fn sprite_cfg(id: &str, images: &[&str], x: i32, y: i32, w: u32, h: u32, delay: u64) -> SpriteConfig {
    SpriteConfig {
        id: id.to_string(),
        images: images.iter().map(|s| s.to_string()).collect(),
        location: Point { x, y },
        size: SpriteSize { width: w, height: h },
        frame_delay: delay,
    }
}

fn snapshot(width: u32, height: u32, sprites: Vec<SpriteConfig>, fps: Option<u64>) -> GameState {
    GameState {
        window: WindowConfig {
            width,
            height,
            background: "bg.png".to_string(),
            title: "Test Window".to_string(),
            icon_path: "icon.png".to_string(),
        },
        sprites,
        text: Vec::new(),
        default_font: "default.ttf".to_string(),
        fps,
    }
}

fn fresh_backend() -> BackendState {
    BackendState { canvas_width: 800, canvas_height: 600, icon_applied: false }
}

fn advance_to(sprite: &mut LiveSprite, frame: usize, acc: u128) {
    sprite.current_frame = frame;
    sprite.last_update = acc;
}

#[test]
fn test_merge_preserves_animation_state() {
    let mut backend = fresh_backend();
    let s1 = snapshot(800, 600, vec![sprite_cfg("p1", &["a", "b", "c"], 0, 0, 1, 1, 100)], None);
    let (mut scene, _) = apply_snapshot(None, &mut backend, s1);
    advance_to(&mut scene.sprites[0], 2, 55);

    let s2 = snapshot(800, 600, vec![sprite_cfg("p1", &["x", "y", "z"], 7, 8, 2, 3, 50)], None);
    let (scene, _) = apply_snapshot(Some(scene), &mut backend, s2);

    assert_eq!(scene.sprites.len(), 1);
    let p1 = &scene.sprites[0];
    // animation state preserved
    assert_eq!(p1.current_frame, 2);
    assert_eq!(p1.last_update, 55);
    // descriptive fields replaced
    assert_eq!(p1.images, vec!["x".to_string(), "y".to_string(), "z".to_string()]);
    assert_eq!(p1.location.x, 7);
    assert_eq!(p1.location.y, 8);
    assert_eq!(p1.size.width, 2);
    assert_eq!(p1.size.height, 3);
    assert_eq!(p1.frame_delay, 50);
}

#[test]
fn test_new_sprite_starts_at_zero() {
    let mut backend = fresh_backend();
    let s1 = snapshot(800, 600, vec![sprite_cfg("p1", &["a"], 0, 0, 1, 1, 100)], None);
    let (mut scene, _) = apply_snapshot(None, &mut backend, s1);
    advance_to(&mut scene.sprites[0], 0, 42);

    let s2 = snapshot(
        800,
        600,
        vec![sprite_cfg("p1", &["a"], 0, 0, 1, 1, 100), sprite_cfg("p2", &["q", "r"], 1, 1, 2, 2, 60)],
        None,
    );
    let (scene, _) = apply_snapshot(Some(scene), &mut backend, s2);

    assert_eq!(scene.sprites.len(), 2);
    assert_eq!(scene.sprites[1].id, "p2");
    assert_eq!(scene.sprites[1].current_frame, 0);
    assert_eq!(scene.sprites[1].last_update, 0);
}

#[test]
fn test_absent_sprite_dropped() {
    let mut backend = fresh_backend();
    let s1 = snapshot(
        800,
        600,
        vec![sprite_cfg("p1", &["a"], 0, 0, 1, 1, 100), sprite_cfg("p2", &["b"], 1, 1, 1, 1, 100)],
        None,
    );
    let (scene, _) = apply_snapshot(None, &mut backend, s1);
    assert_eq!(scene.sprites.len(), 2);

    let s2 = snapshot(800, 600, vec![sprite_cfg("p2", &["b"], 1, 1, 1, 1, 100)], None);
    let (scene, _) = apply_snapshot(Some(scene), &mut backend, s2);

    assert_eq!(scene.sprites.len(), 1);
    assert!(scene.sprites.iter().all(|s| s.id != "p1"));
}

#[test]
fn test_merge_order_follows_snapshot() {
    let mut backend = fresh_backend();
    let s1 = snapshot(
        800,
        600,
        vec![sprite_cfg("p1", &["a"], 0, 0, 1, 1, 100), sprite_cfg("p2", &["b"], 1, 1, 1, 1, 100)],
        None,
    );
    let (scene, _) = apply_snapshot(None, &mut backend, s1);

    let s2 = snapshot(
        800,
        600,
        vec![sprite_cfg("p2", &["b"], 1, 1, 1, 1, 100), sprite_cfg("p1", &["a"], 0, 0, 1, 1, 100)],
        None,
    );
    let (scene, _) = apply_snapshot(Some(scene), &mut backend, s2);

    let ids: Vec<&str> = scene.sprites.iter().map(|s| s.id.as_str()).collect();
    assert_eq!(ids, vec!["p2", "p1"]);
}

#[test]
fn test_merge_reduces_frame_into_shrunk_list() {
    let mut backend = fresh_backend();
    let s1 = snapshot(800, 600, vec![sprite_cfg("p1", &["a", "b", "c"], 0, 0, 1, 1, 100)], None);
    let (mut scene, _) = apply_snapshot(None, &mut backend, s1);
    advance_to(&mut scene.sprites[0], 2, 10);

    // the new description has only two frames: index 2 is reduced modulo 2
    let s2 = snapshot(800, 600, vec![sprite_cfg("p1", &["a", "b"], 0, 0, 1, 1, 100)], None);
    let (scene, _) = apply_snapshot(Some(scene), &mut backend, s2);
    assert_eq!(scene.sprites[0].current_frame, 0);
    assert_eq!(scene.sprites[0].last_update, 10);
}

#[test]
fn test_frame_duration_from_fps_30() {
    assert_eq!(frame_duration_ms(30), 33);
}

#[test]
fn test_frame_duration_defaults_to_60_fps() {
    let mut backend = fresh_backend();
    let s1 = snapshot(800, 600, Vec::new(), None);
    let (scene, _) = apply_snapshot(None, &mut backend, s1);
    assert_eq!(scene.frame_duration_ms, 16);

    let s2 = snapshot(800, 600, Vec::new(), Some(30));
    let (scene, _) = apply_snapshot(Some(scene), &mut backend, s2);
    assert_eq!(scene.frame_duration_ms, 33);
}

#[test]
fn test_window_and_text_replaced_wholesale() {
    let mut backend = fresh_backend();
    let mut s1 = snapshot(800, 600, Vec::new(), None);
    s1.text.push(TextConfig {
        id: "t1".to_string(),
        font_family: None,
        content: "hello".to_string(),
        size: 12,
        color: None,
        location: Point { x: 0, y: 0 },
    });
    let (scene, _) = apply_snapshot(None, &mut backend, s1);
    assert_eq!(scene.text.len(), 1);
    assert_eq!(scene.window.title, "Test Window");

    let mut s2 = snapshot(640, 480, Vec::new(), None);
    s2.window.title = "Renamed".to_string();
    let (scene, _) = apply_snapshot(Some(scene), &mut backend, s2);
    assert_eq!(scene.text.len(), 0);
    assert_eq!(scene.window.title, "Renamed");
    assert_eq!(scene.window.width, 640);
    assert_eq!(scene.window.height, 480);
}

#[test]
fn test_resize_only_on_size_change() {
    let mut backend = fresh_backend();
    let s1 = snapshot(640, 480, Vec::new(), None);
    let (scene, fx1) = apply_snapshot(None, &mut backend, s1);
    assert_eq!(fx1.resize, Some((640, 480)));

    // identical size again: no resize request
    let s2 = snapshot(640, 480, Vec::new(), None);
    let (scene, fx2) = apply_snapshot(Some(scene), &mut backend, s2);
    assert_eq!(fx2.resize, None);

    let s3 = snapshot(800, 600, Vec::new(), None);
    let (_, fx3) = apply_snapshot(Some(scene), &mut backend, s3);
    assert_eq!(fx3.resize, Some((800, 600)));
}

#[test]
fn test_snapshot_matching_initial_canvas_needs_no_resize() {
    let mut backend = fresh_backend();
    let s1 = snapshot(800, 600, Vec::new(), None);
    let (_, fx) = apply_snapshot(None, &mut backend, s1);
    assert_eq!(fx.resize, None);
}

#[test]
fn test_icon_applied_exactly_once() {
    let mut backend = fresh_backend();
    let s1 = snapshot(800, 600, Vec::new(), None);
    let (scene, fx1) = apply_snapshot(None, &mut backend, s1);
    assert_eq!(fx1.icon, Some("icon.png".to_string()));

    let mut s2 = snapshot(800, 600, Vec::new(), None);
    s2.window.icon_path = "other.png".to_string();
    let (_, fx2) = apply_snapshot(Some(scene), &mut backend, s2);
    assert_eq!(fx2.icon, None);
}

#[test]
fn test_title_applied_on_every_merge() {
    let mut backend = fresh_backend();
    let s1 = snapshot(800, 600, Vec::new(), None);
    let (scene, fx1) = apply_snapshot(None, &mut backend, s1);
    assert_eq!(fx1.title, "Test Window");

    let s2 = snapshot(800, 600, Vec::new(), None);
    let (_, fx2) = apply_snapshot(Some(scene), &mut backend, s2);
    assert_eq!(fx2.title, "Test Window");
}

#[test]
fn test_empty_snapshot_clears_scene() {
    let mut backend = fresh_backend();
    let s1 = snapshot(800, 600, vec![sprite_cfg("p1", &["a"], 0, 0, 1, 1, 100)], None);
    let (scene, _) = apply_snapshot(None, &mut backend, s1);

    let s2 = snapshot(800, 600, Vec::new(), None);
    let (scene, _) = apply_snapshot(Some(scene), &mut backend, s2);
    assert_eq!(scene.sprites.len(), 0);
}
