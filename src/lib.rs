//! A fixed-timestep frame loop engine for a single rendering surface.
//!
//! The host drives the engine: it reports presented frames, the end of each
//! update or render callback, and input or resize events. The engine decides
//! what runs next and keeps the time accounting exact by working in integers.
pub mod cell;
pub mod clock;
pub mod error;
pub mod listeners;
pub mod resize;
pub mod slot;
