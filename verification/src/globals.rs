//! The per-frame uniform record and its fixed byte layout.
//!
//! The record carries the camera transform (a 4×4 matrix of 32-bit
//! scalars), the live particle count, the global softening constant
//! ("safety", 64-bit) and the per-tick time delta (32-bit), each scalar as
//! the bit pattern of the IEEE-754 number it stands for. Its byte image,
//! rewritten every frame, is what the external consumer reads; the layout
//! is fixed: the sixteen matrix words row by row, the count, four pad
//! bytes so the 64-bit safety word sits 8-byte aligned, the safety word,
//! the delta word, and twelve trailing pad bytes that round the record up
//! to 96 bytes, a multiple of the consumer's 16-byte alignment.

use vstd::prelude::*;

use crate::codec::{push_u32_le, push_u64_le, u32_le_bytes, u64_le_bytes};

verus! {

/// The size in bytes of the encoded uniform record.
pub const GLOBALS_BYTES: usize = 96;

/// The bit pattern of the 32-bit IEEE-754 number one.
pub const F32_ONE_BITS: u32 = 0x3f80_0000;

/// The bit pattern of the 64-bit IEEE-754 number one.
pub const F64_ONE_BITS: u64 = 0x3ff0_0000_0000_0000;

/// The bit pattern of the 32-bit IEEE-754 number 0.0001, the default
/// per-tick time delta.
pub const F32_DEFAULT_DELTA_BITS: u32 = 0x38d1_b717;

/// The uniform record handed to the compute kernel and the renderer once
/// per frame. Every scalar is an IEEE-754 bit pattern.
#[derive(Clone, Copy, Debug, PartialEq, Eq)]
pub struct Globals {
    /// The camera transform, row by row.
    pub matrix: [[u32; 4]; 4],
    /// The live particle count.
    pub particles: u32,
    /// The global softening constant added to squared separations.
    pub safety: u64,
    /// The time step one tick advances the integration by.
    pub delta: u32,
}

/// The matrix of a camera that has not moved: the identity transform.
pub open spec fn spec_identity_matrix() -> [[u32; 4]; 4] {
    [
        [F32_ONE_BITS, 0u32, 0u32, 0u32],
        [0u32, F32_ONE_BITS, 0u32, 0u32],
        [0u32, 0u32, F32_ONE_BITS, 0u32],
        [0u32, 0u32, 0u32, F32_ONE_BITS],
    ]
}

impl Default for Globals {
    /// The record before any frame ran: an identity camera transform, no
    /// particles, a safety constant of one, and the default time delta.
    fn default() -> (g: Globals)
        ensures
            g == (Globals {
                matrix: spec_identity_matrix(),
                particles: 0,
                safety: F64_ONE_BITS,
                delta: F32_DEFAULT_DELTA_BITS,
            }),
    {
        Globals {
            matrix: [
                [F32_ONE_BITS, 0u32, 0u32, 0u32],
                [0u32, F32_ONE_BITS, 0u32, 0u32],
                [0u32, 0u32, F32_ONE_BITS, 0u32],
                [0u32, 0u32, 0u32, F32_ONE_BITS],
            ],
            particles: 0,
            safety: F64_ONE_BITS,
            delta: F32_DEFAULT_DELTA_BITS,
        }
    }
}

/// The 96 bytes of the uniform record, in the fixed layout.
pub open spec fn globals_bytes(g: Globals) -> Seq<u8> {
    u32_le_bytes(g.matrix[0][0]) + u32_le_bytes(g.matrix[0][1]) + u32_le_bytes(g.matrix[0][2])
        + u32_le_bytes(g.matrix[0][3]) + u32_le_bytes(g.matrix[1][0]) + u32_le_bytes(
        g.matrix[1][1],
    ) + u32_le_bytes(g.matrix[1][2]) + u32_le_bytes(g.matrix[1][3]) + u32_le_bytes(
        g.matrix[2][0],
    ) + u32_le_bytes(g.matrix[2][1]) + u32_le_bytes(g.matrix[2][2]) + u32_le_bytes(
        g.matrix[2][3],
    ) + u32_le_bytes(g.matrix[3][0]) + u32_le_bytes(g.matrix[3][1]) + u32_le_bytes(
        g.matrix[3][2],
    ) + u32_le_bytes(g.matrix[3][3]) + u32_le_bytes(g.particles) + u32_le_bytes(0)
        + u64_le_bytes(g.safety) + u32_le_bytes(g.delta) + u32_le_bytes(0) + u32_le_bytes(0)
        + u32_le_bytes(0)
}

impl Globals {
    /// Encodes the record into the 96-byte image uploaded to the uniform
    /// slot.
    pub fn to_bytes(&self) -> (bytes: Vec<u8>)
        ensures
            bytes@ == globals_bytes(*self),
            bytes@.len() == GLOBALS_BYTES,
    {
        let mut bytes: Vec<u8> = Vec::new();
        push_u32_le(&mut bytes, self.matrix[0][0]);
        push_u32_le(&mut bytes, self.matrix[0][1]);
        push_u32_le(&mut bytes, self.matrix[0][2]);
        push_u32_le(&mut bytes, self.matrix[0][3]);
        push_u32_le(&mut bytes, self.matrix[1][0]);
        push_u32_le(&mut bytes, self.matrix[1][1]);
        push_u32_le(&mut bytes, self.matrix[1][2]);
        push_u32_le(&mut bytes, self.matrix[1][3]);
        push_u32_le(&mut bytes, self.matrix[2][0]);
        push_u32_le(&mut bytes, self.matrix[2][1]);
        push_u32_le(&mut bytes, self.matrix[2][2]);
        push_u32_le(&mut bytes, self.matrix[2][3]);
        push_u32_le(&mut bytes, self.matrix[3][0]);
        push_u32_le(&mut bytes, self.matrix[3][1]);
        push_u32_le(&mut bytes, self.matrix[3][2]);
        push_u32_le(&mut bytes, self.matrix[3][3]);
        push_u32_le(&mut bytes, self.particles);
        push_u32_le(&mut bytes, 0);
        push_u64_le(&mut bytes, self.safety);
        push_u32_le(&mut bytes, self.delta);
        push_u32_le(&mut bytes, 0);
        push_u32_le(&mut bytes, 0);
        push_u32_le(&mut bytes, 0);
        assert(bytes@ =~= globals_bytes(*self));
        bytes
    }
}

} // verus!
