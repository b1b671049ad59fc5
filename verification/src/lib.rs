//! Live-scene reconciliation and animation engine for a controller-driven
//! 2D scene renderer.
//!
//! An external controller streams encoded scene snapshots; this library
//! decodes them, merges each one into a persistent live scene while
//! preserving per-sprite animation progress, advances animation frames from
//! elapsed time, plans the draw calls of each tick, and translates input
//! events into outbound messages. The graphics backend and all I/O live
//! outside the library.

pub mod animate;
pub mod cache;
pub mod config;
pub mod decode;
pub mod events;
pub mod reconcile;
pub mod render;
pub mod scene;
