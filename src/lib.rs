//! Algebraic element types and a generic matrix engine (minor, cofactor
//! determinant, adjugate) written once against a small ring interface.
pub mod algebra;
pub mod integers;
pub mod matrix;
pub mod laws;
