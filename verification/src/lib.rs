//! Job pipeline core for a media transcription service: progress parsers,
//! timestamp rendering, the per-job stage machine, the asset resolver's
//! decisions and the job registry.

pub mod text;
pub mod ids;
pub mod progress;
pub mod audio;
pub mod transcript;
pub mod paths;
pub mod pipeline;
pub mod registry;
pub mod asset;
