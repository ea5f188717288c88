//! A small static-file HTTP server library.
//!
//! The verified core maps one request path and an immutable configuration to
//! an HTTP response: a traversal guard rejects any path holding `..`, index
//! aliases are replaced by the configured index file, the filesystem path is
//! the root directory joined to the logical path, and the response carries
//! the file's bytes with a content type guessed from the logical path's
//! extension. Reading the file and speaking HTTP on a socket stay outside
//! the library; the handler takes the outcome of the read as an argument.

pub mod config;
pub mod handler;
pub mod laws;
pub mod mime;
pub mod response;
