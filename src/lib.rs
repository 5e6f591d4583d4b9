//! Single-host auto-update orchestration: configuration model, version
//! comparison, release selection, package installer decisions and the
//! per-application update protocol.

pub mod config;
pub mod error;
pub mod fetcher;
pub mod installer;
pub mod runner;
pub mod text;
pub mod types;
pub mod version;
