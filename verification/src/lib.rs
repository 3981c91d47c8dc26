//! Silence padding for uncompressed PCM audio, with the decisions that
//! surround it: output-format lookup, command lines for the external
//! transcoder and the AI backend, and the shaping of results for callers.
//!
//! The library does no input or output. It takes what was read of a file
//! or printed by a process as plain values, and returns what is to be
//! written or run. What it takes on trust of code that it calls but does
//! not verify stands in two modules of its own, [`strings`] and [`json`].

pub mod ai_bridge;
pub mod audio;
pub mod commands;
pub mod json;
pub mod strings;
pub mod text;
