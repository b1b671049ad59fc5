use base64::engine::general_purpose::STANDARD;
use base64::Engine;

use scene_renderer::config::{GameState, WindowConfig};
use scene_renderer::decode::{decode_message, DecodeFailure};
use scene_renderer::reconcile::{apply_snapshot, BackendState};

#[test]
fn test_decode_valid_message() {
    let text = r#"{"window":{"width":800,"height":600,"background":"bg.png"}}"#;
    let encoded = STANDARD.encode(text.as_bytes());
    let decoded = decode_message(&encoded).unwrap();
    assert_eq!(decoded, text);
}

#[test]
fn test_decode_known_pair() {
    // a fixed pair, so a decoder that handed its input back would fail
    let decoded = decode_message("aGVsbG8=").unwrap();
    assert_eq!(decoded, "hello");
}

#[test]
fn test_decode_rejects_bad_base64() {
    let r = decode_message("%%% not base64 %%%");
    assert!(matches!(r, Err(DecodeFailure::InvalidEncoding)));
}

#[test]
fn test_decode_rejects_bad_utf8() {
    // valid base64 of bytes that are not valid UTF-8
    let encoded = STANDARD.encode([0xffu8, 0xfe, 0x00, 0x80]);
    let r = decode_message(&encoded);
    assert!(matches!(r, Err(DecodeFailure::InvalidText)));
}

#[test]
fn test_decode_empty_message() {
    let decoded = decode_message("").unwrap();
    assert_eq!(decoded, "");
}

fn scene_window(scene: &WindowConfig) -> (u32, u32, &str, &str, &str) {
    (
        scene.width,
        scene.height,
        scene.background.as_str(),
        scene.title.as_str(),
        scene.icon_path.as_str(),
    )
}

#[test]
fn test_invalid_message_leaves_scene_unchanged() {
    // the render loop only reconciles after a successful decode: a message
    // that fails to decode leaves the live scene exactly as it was
    let mut backend = BackendState { canvas_width: 800, canvas_height: 600, icon_applied: false };
    let snap = GameState {
        window: WindowConfig {
            width: 640,
            height: 480,
            background: "bg.png".to_string(),
            title: "t".to_string(),
            icon_path: "i.png".to_string(),
        },
        sprites: Vec::new(),
        text: Vec::new(),
        default_font: "f".to_string(),
        fps: Some(30),
    };
    let (scene, _) = apply_snapshot(None, &mut backend, snap);
    let before = (
        scene_window(&scene.window),
        scene.sprites.len(),
        scene.text.len(),
        scene.default_font.clone(),
        scene.frame_duration_ms,
    );

    let r = decode_message("!!! definitely not a snapshot !!!");
    assert!(r.is_err());

    let after = (
        scene_window(&scene.window),
        scene.sprites.len(),
        scene.text.len(),
        scene.default_font.clone(),
        scene.frame_duration_ms,
    );
    assert_eq!(before, after);
}
