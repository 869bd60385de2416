//! A software 3D rasterizer: meshes are transformed through a
//! model/view/projection/viewport pipeline, back-facing triangles are culled,
//! the survivors are rasterized into depth- and color-interpolated fragments,
//! and the fragments are composited into a color framebuffer under a depth
//! test. All arithmetic is signed 48.16 fixed point, so every stage has an
//! exact integer semantics.

pub mod color;
pub mod fixed;
pub mod framebuffer;
pub mod geom;
pub mod input;
pub mod matrix;
pub mod raster;
pub mod render;
pub mod shaders;

pub use fixed::FX_ONE;
