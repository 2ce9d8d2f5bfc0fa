//! Metadata session core for an image tag browser/editor.
//!
//! The library models a directory of images as a navigable collection,
//! extracts each image's embedded tags into a display-ready table, keeps a
//! dictionary of known tag names for completion, and validates edits before
//! they are applied to the file's metadata container.

pub mod codec;
pub mod collection;
pub mod dictionary;
pub mod session;
