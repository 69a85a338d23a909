//! From a payload to the matrix of its symbol: the tables of the versions,
//! the bit stream, the blocks, the function patterns, the placement, the
//! masks and the format information.

pub mod blocks;
pub mod capacity;
pub mod capacity_tables;
pub mod character_capacity;
pub mod constants;
pub mod format;
pub mod level;
pub mod mask;
pub mod matrix;
pub mod mode;
pub mod patterns;
pub mod placement;
pub mod segment;
pub mod symbol;
