//! Forked state resolution: cache, storage overlay and remote lookups.

pub mod felt;
pub mod table;
pub mod error;
pub mod class;
pub mod cache;
pub mod diff;
pub mod reader;
pub mod config;
