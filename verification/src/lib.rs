//! Transcript acquisition and speaker attribution pipeline.
//!
//! The library covers the logic of the pipeline: URL validation and video-id
//! extraction, planning of the audio download, classification of the
//! transcription service's responses, assembly of a word-timed transcript,
//! the heuristic speaker-attribution pass, and deep-link generation.
//! All I/O (processes, network, filesystem) stays with the caller, which
//! hands the library plain values and takes plain values back.

pub mod acquire;
pub mod errors;
pub mod metadata;
pub mod paths;
pub mod service;
pub mod text;
pub mod transcript;
pub mod video_url;
