//! A speech-to-text transcriber's decision logic, verified with Verus:
//! which engine and model a run uses, where model files come from, which
//! input each engine takes, how transcripts are finished and named, and how
//! a directory watch remembers what it has already transcribed.

pub mod audio;
pub mod cli;
pub mod config;
pub mod paths;
pub mod models;
pub mod moonshine;
pub mod parakeet;
pub mod text;
pub mod transcriber;
pub mod watcher;
pub mod whisper;
pub mod writer;
