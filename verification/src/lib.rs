//! A small 3D linear-algebra library: a 3-component vector and a 4x4 matrix
//! with the transform operations used by rendering pipelines.
//!
//! Scalars are IEEE 754 single-precision values, carried everywhere as their
//! 32-bit patterns (`u32`), so that the surrounding algebra can be verified
//! while the arithmetic itself is done by the hardware float unit.

pub mod mat4;
pub mod scalar;
pub mod vec3;

pub use mat4::M44;

pub use vec3::lerp;
pub use vec3::V3;
