//! Captions for photographs from their embedded metadata: camera, lens,
//! exposure, date and position, resolved from the metadata fields, rendered
//! in a fixed multi-line template and kept within a byte budget; and the
//! routing of incoming images between a direct and a large-file download.
use vstd::prelude::*;

pub mod text;
pub mod units;
pub mod strings;
pub mod metadata;
pub mod attributes;
pub mod geo;
pub mod caption;
pub mod media;
pub mod summary;
