//! The field GF(256), polynomials over it, and Reed-Solomon codewords.

pub mod algebra;
pub mod codeword;
pub mod field;
pub mod generator;
pub mod polynomial;
pub mod reed_solomon;
