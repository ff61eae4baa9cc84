//! Galaxy generation and double-buffered n-body simulation orchestration.
//!
//! The library builds an initial particle population from a declarative
//! description of galaxies (a dense bulge plus spiral arms around a center
//! mass), validates that description, lays the particle and uniform records
//! out in their fixed byte formats, and drives the per-frame protocol of a
//! double-buffered simulation (copy `current` to `old`, dispatch a compute
//! step, draw).
//!
//! Every scalar that the surrounding program treats as an IEEE-754 number is
//! carried here as its raw bit pattern: a `u32` for a 32-bit value, a `u64`
//! for a 64-bit one. The arithmetic on those numbers (orbital speeds, trig,
//! camera transforms) lives outside the library; what is verified here is
//! everything whose meaning does not depend on rounding: population counts
//! and output ordering, configuration validation down to the bit layout of
//! the scalars, the record byte formats, and the frame command protocol.

pub mod codec;
pub mod gen;
pub mod globals;
pub mod particle;
pub mod sim;
pub mod validate;
