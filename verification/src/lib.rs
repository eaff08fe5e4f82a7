//! Core of a document and image viewer.
//!
//! The crate is organised around four verified pieces: the transform engine
//! that tracks rotation and flips of a decoded surface, the content-addressed
//! thumbnail cache keyed by a fingerprint of (path, modification time, page),
//! the incremental per-page thumbnail pipeline, and the interactive viewport
//! controller for zooming and panning. Decoding, hashing and pixel transforms
//! are delegated to outside crates through narrow trusted wrappers; everything
//! that decides or computes on plain values is verified.

pub mod cache;
pub mod codec;
pub mod content;
pub mod document;
pub mod file;
pub mod fingerprint;
pub mod message;
pub mod meta;
pub mod model;
pub mod portable;
pub mod raster;
pub mod surface;
pub mod text;
pub mod transform;
pub mod update;
pub mod vector;
pub mod viewer;
