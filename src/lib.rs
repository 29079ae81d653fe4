//! Turns non-numeric values (images, words, audio) into numeric tensors.
//!
//! A convertible value produces a flat sequence of 32-bit floats, held here as
//! their IEEE-754 bit patterns; the library checks that sequence against the
//! capacity of a memory region and copies it in, element by element.

pub mod memory;
pub mod transformer;

pub use transformer::{Transformer, TransformerError};
