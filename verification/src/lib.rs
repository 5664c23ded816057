//! Capture of system and application audio through an aggregate device:
//! the decisions of its lifecycle, the normalisation of captured buffers,
//! and the cleaning of extracted text.

pub mod aggregate;
pub mod audio_buffer;
pub mod callback;
pub mod description;
pub mod error;
pub mod launch;
pub mod property;
pub mod rate;
pub mod resampler;
pub mod stream;
pub mod text;
