//! Package health and risk scoring for npm, PyPI and crates.io packages.
pub mod cache;
pub mod cli;
pub mod config;
pub mod ecosystems;
pub mod json;
pub mod output;
pub mod scoring;
pub mod text;
