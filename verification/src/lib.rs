//! Core of a background screenshot utility: edge-triggered hotkey detection,
//! clamped sub-rectangle cropping of raw BGRA framebuffers, unique file naming
//! from a monotonic timestamp, the capture scheduler's decisions, and the
//! background pipeline that transcodes raw captures to a compressed format.

pub mod config;
pub mod convert;
pub mod crop;
pub mod keys;
pub mod sched;
pub mod naming;
