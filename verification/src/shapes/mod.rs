//! Shapes that a ray can be tested against.
pub mod triangle;

pub use triangle::Triangle;
