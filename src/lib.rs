//! A fluent builder for curl's `Easy` handle.
//!
//! Every option setter forwards to the handle, keeps the error that the
//! handle reports (if any), and hands the builder back so that calls chain.
//! The errors surface together when the configured handle is asked for.

mod curl_api;
mod easy;
pub mod errors;
mod transfer;

pub use easy::EasyBuilder;
pub use transfer::TransferBuilder;
