//! A synchronous, progress-reporting file downloader.
//!
//! The library fetches an HTTP resource as a stream of byte chunks, copies
//! the chunks into a caller-supplied byte sink while reporting each chunk to
//! a caller-supplied progress observer, and maps the terminal result onto a
//! small integer status code.

pub mod byte_io;
pub mod copy;
pub mod download;
pub mod fetch;
pub mod outcome;
pub mod progress;
pub mod size_hint;
