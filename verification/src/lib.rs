//! Navigation and viewport state of an image viewer: the playlist cursor,
//! the playlist itself, and the integer part of the viewport transform.

pub mod player;
pub mod playlist;

pub use player::renderer::texture::Rgba8Image;
