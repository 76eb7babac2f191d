//! Decision logic of a desktop front-end that runs speech enhancement on
//! audio files: locating helper tools and environments, reading WAV headers,
//! summarising media probes, and driving enhancement jobs and the model worker.

pub mod audio;
pub mod paths;
pub mod queue;
pub mod setup;
pub mod text;
pub mod worker;

