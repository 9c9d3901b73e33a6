//! Recording session orchestration: the lifecycle of one recording session,
//! its pause accounting, device connectivity, transcript history and the
//! loss-free shutdown protocol, with the tray menu that shows its state.
//!
//! The library decides; the shell around it does the work. Every answer of
//! a collaborator (the transcription engines, the capture subsystem, the
//! operating system's device list, the clock) comes in as a plain value.

pub mod error;
pub mod device;
pub mod pause;
pub mod transcript;
pub mod monitor;
pub mod session;
pub mod shutdown;
pub mod analytics;
pub mod recording_commands;
pub mod tray;
pub mod laws;
