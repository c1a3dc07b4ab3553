//! Verified request-handling logic for a federal court case management API.
pub mod error;
pub mod handlers;
pub mod ids;
pub mod parse;
pub mod text;
pub mod time;
pub mod update;
