//! A directional-sprite subsystem: maps player input to a facing direction,
//! resolves that direction into a sprite-sheet animation range, and drives
//! frame-by-frame playback with a separate flashing/visibility effect.

pub mod animation;
pub mod character;
pub mod sprite;
pub mod world;
