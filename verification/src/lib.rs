//! A small error-representation library: a structured error value
//! (`BookError`) carrying a classification, a message and accumulated
//! detail text, plus an ordered collection (`ErrorList`) for gathering
//! several independent errors during a batch operation.

pub mod error;
