//! Core data structures for a tile-based map: a dense row-major 2D grid,
//! tile attribute types parsed from JSON configuration files, and the
//! pure decision logic behind the asset hot-reload plumbing.

pub mod array2d;
pub mod attrib;
pub mod json;
pub mod map;
pub mod util;

pub use array2d::Array2D;
pub use array2d::IntoU2;
