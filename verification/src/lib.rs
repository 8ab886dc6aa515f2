//! A software 3D rendering pipeline over fixed-point arithmetic.
//!
//! Triangle meshes with per-vertex attributes are transformed through
//! model/view/projection/viewport space, rasterized into pixel fragments,
//! shaded with procedural materials driven by an external coherent-noise
//! sampler, and composited into a color buffer with depth testing and an
//! emissive bloom pass.
//!
//! All geometry and shading math is carried out on `Fx` values: `i64`
//! numbers with 16 fractional bits, saturating at a fixed representable
//! range, so that every arithmetic step has an exact integer specification.

pub mod color;
pub mod fragment;
pub mod fixed;
pub mod framebuffer;
pub mod render;
pub mod shaders;
pub mod triangle;
pub mod vecmat;
pub mod vertex;
