//! Ferrous Forge: the rules, analyses and fixers behind a Rust standards enforcer.

pub mod ai_analyzer;
pub mod commands;
pub mod cargo_intercept;
pub mod config;
pub mod error;
pub mod fix;
pub mod text;
pub mod violation;
