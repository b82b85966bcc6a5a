//! Lifecycle and shutdown coordination for a single-threaded execution
//! context that runs on a dedicated worker thread.
pub mod lifecycle;
pub mod signal;
