//! A disk-backed download cache: the index of cached URLs, the rules by which
//! entries expire, and the decisions of the two fetch operations. Beside it,
//! what an installer needs to know of the site it downloads from.
//!
//! The library decides and leaves the doing to its caller: it reads no file
//! and sends no request. What it decides is stated in the contracts of its
//! functions and proved.

pub mod cache;
mod clock;
pub mod downloader;
pub mod entry;
pub mod error;
pub mod file;
pub mod filename;
pub mod key;
pub mod laws;
pub mod mozilla;
pub mod text;

pub use crate::downloader::Downloader;
pub use crate::error::Error;
