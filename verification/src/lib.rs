//! A small kernel for three-component vectors: a generic value type whose
//! element type supplies addition, multiplication and a zero element, and a
//! dot product whose accumulation order is fixed so that every implementation
//! of the kernel computes the same result.

pub mod bench;
pub mod scalar;
pub mod vector;
