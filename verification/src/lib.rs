//! Session and round orchestration for a command-line assistant that is driven
//! one prompt at a time: configuration clean-up, the continuity decision between
//! rounds, decoding of the assistant's line-oriented output into text chunks,
//! and the classification of how a round ended.
//!
//! The crate holds decisions only. Spawning processes, reading pipes and
//! delivering events are left to the caller, which hands in plain values and
//! carries out what the functions here return.

pub mod capture;
pub mod command;
pub mod config;
pub mod decode;
pub mod history;
pub mod jobs;
pub mod json;
pub mod manager;
pub mod outcome;
pub mod terminal;
pub mod text;
