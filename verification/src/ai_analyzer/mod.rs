//! AI analysis module for automated violation analysis

pub mod types;
pub mod context;
pub mod semantic;
pub mod strategies;
pub mod analyzer;
