//! An interpreter for a small esoteric instruction language: a flat tape of
//! single-character opcodes acting on one byte register, two byte stacks, a
//! direction flag, and sixteen named jump labels.

pub mod commands;
pub mod engine;
mod host;
pub mod loader;
pub mod types;
