//! A verified compositing core for a vector-graphics rasterizer.
//!
//! The crate walks a resolved scene graph and rasterizes it into a pixel
//! buffer, managing offscreen isolation layers for group opacity, blend
//! modes, filters, clips and masks. Pixel work is delegated to `tiny_skia`;
//! the layer geometry, the isolation decisions and the fail-soft sequencing
//! are verified.

pub mod geom;
pub mod render;
pub mod skia;
pub mod tree;

pub use render::Context;
