//! Batch conversion of raster images (JPEG, PNG, GIF) into WebP files.
//!
//! The library holds the logic of the conversion: which files are taken,
//! where each result goes, the in-memory transcoding and the decisions of a
//! batch run. Reading directories and files is left to the caller.
pub mod batch;
pub mod codec;
pub mod converter;
pub mod filter;
pub mod laws;
pub mod paths;

pub use converter::{ConvertError, ErrorKind, WebPConverter};
