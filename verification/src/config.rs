//! Scene snapshot types: the immutable description of a scene as one decoded
//! message delivers it, before it is merged into the live scene.

use vstd::prelude::*;

verus! {

/// A position on the canvas, in pixels.
pub struct Point {
    pub x: i32,
    pub y: i32,
}

/// The drawn size of a sprite, in pixels.
pub struct SpriteSize {
    pub width: u32,
    pub height: u32,
}

/// An RGBA color.
pub struct ColorConfig {
    pub r: u8,
    pub g: u8,
    pub b: u8,
    pub a: u8,
}

impl Default for ColorConfig {
    /// Opaque black, the color used for text when a snapshot names none.
    fn default() -> (c: ColorConfig)
        ensures
            c.r == 0 && c.g == 0 && c.b == 0 && c.a == 255,
    {
        ColorConfig { r: 0, g: 0, b: 0, a: 255 }
    }
}

/// The window portion of a snapshot: canvas size, background image
/// reference, title and icon reference.
pub struct WindowConfig {
    pub width: u32,
    pub height: u32,
    pub background: String,
    pub title: String,
    pub icon_path: String,
}

/// One sprite as a snapshot describes it: identity, frame image references,
/// position, size, and the minimum time one frame stays on screen.
pub struct SpriteConfig {
    pub id: String,
    pub images: Vec<String>,
    pub location: Point,
    pub size: SpriteSize,
    /// Minimum display duration of one frame, in milliseconds.
    pub frame_delay: u64,
}

/// One text overlay: identity, optional font family, content, point size,
/// optional color, and position.
pub struct TextConfig {
    pub id: String,
    pub font_family: Option<String>,
    pub content: String,
    pub size: u16,
    pub color: Option<ColorConfig>,
    pub location: Point,
}

/// A complete scene snapshot, produced once per decoded message.
pub struct GameState {
    pub window: WindowConfig,
    pub sprites: Vec<SpriteConfig>,
    pub text: Vec<TextConfig>,
    pub default_font: String,
    pub fps: Option<u64>,
}

impl GameState {
    /// The target frame rate of this snapshot; 60 when it declares none.
    pub open spec fn spec_fps(&self) -> u64 {
        match self.fps {
            Some(f) => f,
            None => 60u64,
        }
    }

    /// The target frame rate of this snapshot; 60 when it declares none.
    pub fn fps(&self) -> (f: u64)
        ensures
            f == self.spec_fps(),
    {
        match self.fps {
            Some(f) => f,
            None => 60,
        }
    }
}

/// The window title used when a snapshot declares none.
pub fn default_title() -> (t: String)
    ensures
        t@ == "Learn Programming 2D Game Engine"@,
{
    String::from_str("Learn Programming 2D Game Engine")
}

/// The minimum per-frame display duration, in milliseconds, used when a
/// sprite declares none.
pub fn default_frame_delay() -> (d: u64)
    ensures
        d == 100u64,
{
    100
}

} // verus!
