//! The arithmetic of a small 2D drawing layer: clamped rectangles, sprite
//! animation, sprite sheets, the placement of textures on a canvas and the
//! outcome of rendering text. Window, canvas and textures belong to the
//! caller; this crate computes what is drawn where.

pub mod placement;
pub mod rect;
pub mod sprite;
pub mod spritesheet;
pub mod text;
pub mod vectors;

pub use placement::{rect_at, texture_placement, Placement};
pub use rect::Rect;
pub use sprite::Sprite;
pub use spritesheet::Spritesheet;
pub use text::create_text_texture;
pub use vectors::Vec2d;
