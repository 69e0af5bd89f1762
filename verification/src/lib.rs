//! Verified core of a terminal workspace for a local mihomo runtime.

pub mod api;
pub mod runtime;
pub mod error;
pub mod text;
pub mod yaml;
pub mod utils;
pub mod assoc;
pub mod app;
pub mod input;
pub mod panel;
pub mod view;
pub mod cli;
pub mod config;
pub mod sorting;
