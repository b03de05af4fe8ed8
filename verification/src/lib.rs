//! Texture handles, a texture registry for renderers, and builders that
//! assemble the parameters of a single image draw.
//!
//! Nothing in this crate talks to a rendering backend. A builder ends in a
//! [`draw::ImageDraw`] record that names every argument of the draw; issuing
//! the draw is left to the caller.

pub mod texture;
pub mod vector;
pub mod draw;
pub mod registry;
pub mod image;
pub mod deferred;
