//! DriftGuard: change detection and request handling for a web monitor.
//!
//! The verified library holds what the monitor decides and computes: what a
//! fetched page reports, how an API request is routed and answered, how a
//! monitor is stored as a row, how settings are read, and the text shown on
//! the command line. Storage, networking and the process itself live in the
//! application around it.

pub mod api;
pub mod cli;
pub mod config;
pub mod db;
pub mod detector;
pub mod ident;
pub mod screenshot;
pub mod text;

pub use config::Config;
pub use db::{Change, Monitor};
pub use detector::{detect_changes, ChangeType};
