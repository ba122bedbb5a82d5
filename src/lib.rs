//! Input, surface and frame-sequencing logic of a camera-driven ray-tracing viewer.
//!
//! The float-valued camera transform lives with the renderer; this library decides
//! what the input state is, which motion a frame integrates, when the surface is
//! reconfigured, how the compute kernel is dispatched and how a failed frame is handled.
pub mod controller;
pub mod frame;
pub mod state;
pub mod surface;
