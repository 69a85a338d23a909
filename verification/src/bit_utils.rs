//! Bits, append-only bit strings, and the square bitmap with its renderings.

pub mod bit;
pub mod bit_string;
pub mod bitmap;
pub mod render;
