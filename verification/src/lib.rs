//! A weather tool's core: a registry of weather providers, a tagged
//! persistence codec that can store and restore any configured provider,
//! and a configuration store with a default selection.

pub mod codec;
pub mod config;
pub mod date;
pub mod provider;
pub mod registry;
pub mod report;
pub mod text;
