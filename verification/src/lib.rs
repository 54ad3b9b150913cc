//! Request execution and history reconciliation for an interactive HTTP
//! request tool.
//!
//! The library holds the decisions of the tool and none of its I/O: a caller
//! performs the network exchanges and the file accesses, hands the outcomes
//! over as plain values, and gets back what to show, what to upload and how the
//! local history changes.

pub mod auth;
pub mod credentials;
pub mod executor;
pub mod history;
pub mod json;
pub mod method;
pub mod record;
pub mod request;
pub mod session;
pub mod status;
pub mod text;
pub mod truncation;
pub mod workspace;
