//! Zero-downtime site deployments: the stage pipeline, the log multiplexer's
//! decisions, the on-disk site layout and retention, and the progress wire
//! protocol.

pub mod archive;
pub mod config;
pub mod deploy;
pub mod json;
pub mod layout;
pub mod multiplex;
pub mod progress;
pub mod protocol;
pub mod retention;
pub mod text;
