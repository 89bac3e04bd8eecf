//! Verified core of a desktop assistant: the audio loopback capture pipeline
//! (device selection, sample framing, the sliding transcription buffer and the
//! capture session state machine) together with the plain data model shared
//! with the rest of the application.

pub mod arith;
pub mod audio_loopback;
pub mod data;
pub mod digest;
pub mod gpu_detection;
pub mod mcp;
pub mod ollama;
pub mod rag;
pub mod speech;
pub mod text;
pub mod window_manager;
