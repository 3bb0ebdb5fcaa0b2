//! Orientation codec for cube-shaped render instances.
//!
//! Each instance carries a packed one-byte orientation code. This crate
//! decodes such a code into its four small fields, derives a right-handed
//! axis/sign triple from them, and assembles the corresponding 3x3
//! signed-permutation matrix, plus the homogeneous 4x4 lookup table that a
//! rendering backend consumes by index. Matrix entries are always -1, 0 or
//! +1, so they are represented exactly as integers here; a consumer widens
//! them to floats when uploading.

pub mod label;
pub mod laws;
pub mod orient;
pub mod table;
pub mod utils;
