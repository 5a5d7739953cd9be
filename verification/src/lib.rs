//! Verified core of a desktop shell that runs a bundled JVM backend on a loopback port.
pub mod text;
pub mod time;
pub mod error;
pub mod paths;
pub mod config;
pub mod resources;
pub mod settings;
pub mod sidecar;
pub mod supervisor;
