//! The core of the debug tools of a desktop application: the decisions
//! behind the capture trigger endpoint, the automatic capture, the choice
//! of the window to photograph, the cooldown between captures and the
//! lifecycle of the log files, each with its contract.
//!
//! The library reads no clock, opens no file and listens on no socket.
//! Where outside work and decisions alternate, the library is a state
//! that says what to do next and takes what came of it.

pub mod config;
pub mod console_log;
pub mod endpoint;
pub mod filesystem;
pub mod json;
pub mod log_files;
pub mod models;
pub mod ports;
pub mod rate_limiter;
pub mod request;
pub mod response;
pub mod snapshot;
pub mod text;
pub mod use_cases;
pub mod window_selector;
