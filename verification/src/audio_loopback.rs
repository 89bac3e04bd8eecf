//! Audio loopback capture: everything the capture task decides, kept apart
//! from the operating system calls that feed it.

pub mod audio_diagnostics;
pub mod audio_processor;
pub mod capture_engine;
pub mod delivery;
pub mod device_enumerator;
pub mod diagnostics_commands;
pub mod encoding;
pub mod platform;
pub mod settings;
pub mod stream_reader;
pub mod transcription_buffer;
pub mod types;
