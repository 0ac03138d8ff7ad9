//! Capture-to-cast orchestration: resolving capture sources, composing the
//! processing pipeline, correcting timestamps, tracking the streaming session
//! and planning casts to discovered playback devices.

pub mod config;
pub mod text;
pub mod source;
pub mod pipeline;
pub mod corrector;
pub mod endpoint;
pub mod session;
pub mod discovery;
