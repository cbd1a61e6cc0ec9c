//! A local bridge that accepts structured requests from a trusted caller,
//! decides for each one whether to issue it directly to the public network or
//! to route it through a locally managed anonymizing proxy, and owns the
//! lifecycle of that proxy subprocess: single-instance locking, at-most-once
//! launch, readiness detection, and request routing with optional custom
//! trust-certificate injection.

pub mod cli;
pub mod config;
pub mod lock;
pub mod messages;
pub mod readiness;
pub mod requests;
pub mod state;
pub mod tor;
pub mod text;
