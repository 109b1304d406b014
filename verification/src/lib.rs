//! Core of an ad-blocking host: a hot-swappable rule store consulted by
//! native hooks, the decision logic of those hooks, the process watcher,
//! the injection lifecycle manager, and the control protocol that binds
//! the host to the injected module.
//!
//! Everything that decides or computes lives here, verified; the binary
//! around it performs the OS calls and hands plain values in and out.

pub mod args;
pub mod blocker;
pub mod filters;
pub mod hooks;
pub mod logger;
pub mod rpc;
pub mod scanner;
