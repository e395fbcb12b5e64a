//! Live TLS certificate management for a static-file HTTPS server.
//!
//! The interesting part of the server is not file serving but keeping the
//! TLS certificate fresh while the listener stays up: watching the
//! certificate and key files, coalescing change notifications into a single
//! pending reload, rebuilding the TLS context with exponential backoff on
//! failure, and redirecting plaintext HTTP to HTTPS.  The decision logic of
//! each of those pieces lives here; the process entry point wires it to the
//! HTTP stack, the filesystem watcher and the clock.

pub mod backoff;
pub mod config;
pub mod controller;
pub mod protocol;
pub mod redirect;
pub mod watch;
