//! Verified core of a small path tracer: the bookkeeping behind GPU buffers,
//! the byte layout that the GPU backend reads, the choice of the closest hit
//! along a ray, and the checks and assembly of a render.
pub mod buffer;
pub mod gpu;
pub mod hit;
pub mod render;
pub mod serialize;
pub mod trace;
