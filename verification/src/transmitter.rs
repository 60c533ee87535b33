//! The transmit path: transmission descriptors and the streamer that sends.

pub mod metadata;
pub mod streamer;
