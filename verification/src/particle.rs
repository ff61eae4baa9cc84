//! The particle record and its fixed byte layout.
//!
//! A particle carries a position, a velocity, a mass and a softening value
//! (`calibrate`), the last of which both sizes the drawn point and guards
//! the gravity law against a vanishing separation. Position and velocity
//! components are 32-bit scalars, mass and softening 64-bit ones; each is
//! held as the raw bit pattern of the IEEE-754 number it stands for.
//!
//! The byte layout consumed by the compute kernel and the renderer is
//! fixed: three 32-bit position words, one 32-bit pad, three 32-bit
//! velocity words, one 32-bit pad, the 64-bit mass, the 64-bit softening —
//! 48 bytes, 16-byte aligned. Reordering any field breaks the consumers.

use vstd::prelude::*;

use crate::codec::{
    push_u32_le, push_u64_le, read_u32_le, read_u64_le, u32_le_bytes, u32_of_le, u64_le_bytes,
    u64_of_le,
};
use crate::codec::{lemma_u32_le_roundtrip, lemma_u64_le_roundtrip};

verus! {

/// The size in bytes of one encoded particle record.
pub const PARTICLE_BYTES: usize = 48;

/// One point mass of the simulation, every scalar held as an IEEE-754 bit
/// pattern: `pos` and `vel` as 32-bit components, `mass` and `calibrate`
/// (the softening value) as 64-bit ones.
#[derive(Clone, Copy, Debug, PartialEq, Eq)]
pub struct Particle {
    pub pos: [u32; 3],
    pub vel: [u32; 3],
    pub mass: u64,
    pub calibrate: u64,
}

impl Particle {
    pub fn new(pos: [u32; 3], vel: [u32; 3], mass: u64, calibrate: u64) -> (p: Particle)
        ensures
            p == (Particle { pos, vel, mass, calibrate }),
    {
        Particle { pos, vel, mass, calibrate }
    }
}

/// The 48 bytes of one particle record, in the fixed layout.
pub open spec fn particle_bytes(p: Particle) -> Seq<u8> {
    u32_le_bytes(p.pos[0]) + u32_le_bytes(p.pos[1]) + u32_le_bytes(p.pos[2]) + u32_le_bytes(0)
        + u32_le_bytes(p.vel[0]) + u32_le_bytes(p.vel[1]) + u32_le_bytes(p.vel[2])
        + u32_le_bytes(0) + u64_le_bytes(p.mass) + u64_le_bytes(p.calibrate)
}

/// The particle whose record a 48-byte buffer holds.
pub open spec fn decode_particle(s: Seq<u8>) -> Particle {
    Particle {
        pos: [
            u32_of_le(s[0], s[1], s[2], s[3]),
            u32_of_le(s[4], s[5], s[6], s[7]),
            u32_of_le(s[8], s[9], s[10], s[11]),
        ],
        vel: [
            u32_of_le(s[16], s[17], s[18], s[19]),
            u32_of_le(s[20], s[21], s[22], s[23]),
            u32_of_le(s[24], s[25], s[26], s[27]),
        ],
        mass: u64_of_le(s[32], s[33], s[34], s[35], s[36], s[37], s[38], s[39]),
        calibrate: u64_of_le(s[40], s[41], s[42], s[43], s[44], s[45], s[46], s[47]),
    }
}

/// A particle record round-tripped through its byte layout reproduces every
/// field bit for bit.
pub proof fn lemma_particle_layout_roundtrip(p: Particle)
    ensures
        particle_bytes(p).len() == PARTICLE_BYTES,
        decode_particle(particle_bytes(p)) == p,
{
    lemma_u32_le_roundtrip(p.pos[0]);
    lemma_u32_le_roundtrip(p.pos[1]);
    lemma_u32_le_roundtrip(p.pos[2]);
    lemma_u32_le_roundtrip(p.vel[0]);
    lemma_u32_le_roundtrip(p.vel[1]);
    lemma_u32_le_roundtrip(p.vel[2]);
    lemma_u64_le_roundtrip(p.mass);
    lemma_u64_le_roundtrip(p.calibrate);
    assert(decode_particle(particle_bytes(p)).pos =~= p.pos);
    assert(decode_particle(particle_bytes(p)).vel =~= p.vel);
}

impl Particle {
    /// Encodes this particle into its 48-byte record.
    pub fn to_bytes(&self) -> (bytes: Vec<u8>)
        ensures
            bytes@ == particle_bytes(*self),
            bytes@.len() == PARTICLE_BYTES,
    {
        let mut bytes: Vec<u8> = Vec::new();
        push_u32_le(&mut bytes, self.pos[0]);
        push_u32_le(&mut bytes, self.pos[1]);
        push_u32_le(&mut bytes, self.pos[2]);
        push_u32_le(&mut bytes, 0);
        push_u32_le(&mut bytes, self.vel[0]);
        push_u32_le(&mut bytes, self.vel[1]);
        push_u32_le(&mut bytes, self.vel[2]);
        push_u32_le(&mut bytes, 0);
        push_u64_le(&mut bytes, self.mass);
        push_u64_le(&mut bytes, self.calibrate);
        assert(bytes@ =~= particle_bytes(*self));
        bytes
    }

    /// Decodes a 48-byte record back into a particle; any other length is
    /// not a particle record.
    pub fn from_bytes(bytes: &Vec<u8>) -> (r: Option<Particle>)
        ensures
            bytes@.len() == PARTICLE_BYTES ==> r == Some(decode_particle(bytes@)),
            bytes@.len() != PARTICLE_BYTES ==> r is None,
    {
        if bytes.len() != PARTICLE_BYTES {
            return None;
        }
        let p = Particle {
            pos: [
                read_u32_le(bytes, 0),
                read_u32_le(bytes, 4),
                read_u32_le(bytes, 8),
            ],
            vel: [
                read_u32_le(bytes, 16),
                read_u32_le(bytes, 20),
                read_u32_le(bytes, 24),
            ],
            mass: read_u64_le(bytes, 32),
            calibrate: read_u64_le(bytes, 40),
        };
        proof {
            assert(p.pos =~= decode_particle(bytes@).pos);
            assert(p.vel =~= decode_particle(bytes@).vel);
        }
        Some(p)
    }
}

/// The concatenated records of a whole particle array, in order.
pub open spec fn particles_bytes(ps: Seq<Particle>) -> Seq<u8>
    decreases ps.len(),
{
    if ps.len() == 0 {
        Seq::empty()
    } else {
        particles_bytes(ps.drop_last()) + particle_bytes(ps.last())
    }
}

/// The encoding of an array is as long as its records laid end to end.
pub proof fn lemma_particles_bytes_len(ps: Seq<Particle>)
    ensures
        particles_bytes(ps).len() == PARTICLE_BYTES * ps.len(),
    decreases ps.len(),
{
    if ps.len() > 0 {
        lemma_particles_bytes_len(ps.drop_last());
        lemma_particle_layout_roundtrip(ps.last());
    }
}

/// Each record sits at its own 48-byte slot of the array encoding.
pub proof fn lemma_particles_bytes_slot(ps: Seq<Particle>, i: int)
    requires
        0 <= i < ps.len(),
    ensures
        particles_bytes(ps).subrange(PARTICLE_BYTES * i, PARTICLE_BYTES * (i + 1))
            == particle_bytes(ps[i]),
    decreases ps.len(),
{
    lemma_particles_bytes_len(ps);
    lemma_particles_bytes_len(ps.drop_last());
    lemma_particle_layout_roundtrip(ps.last());
    if i == ps.len() - 1 {
        assert(particles_bytes(ps).subrange(PARTICLE_BYTES * i, PARTICLE_BYTES * (i + 1))
            =~= particle_bytes(ps[i]));
    } else {
        lemma_particles_bytes_slot(ps.drop_last(), i);
        assert(particles_bytes(ps).subrange(PARTICLE_BYTES * i, PARTICLE_BYTES * (i + 1))
            =~= particles_bytes(ps.drop_last()).subrange(
            PARTICLE_BYTES * i,
            PARTICLE_BYTES * (i + 1),
        ));
    }
}

/// Encodes a whole particle array into the byte buffer uploaded to the
/// device: the 48-byte records laid end to end, in array order.
pub fn encode_particles(ps: &Vec<Particle>) -> (bytes: Vec<u8>)
    ensures
        bytes@ == particles_bytes(ps@),
        bytes@.len() == PARTICLE_BYTES * ps@.len(),
{
    let mut bytes: Vec<u8> = Vec::new();
    let mut i: usize = 0;
    while i < ps.len()
        invariant
            i <= ps@.len(),
            bytes@ == particles_bytes(ps@.take(i as int)),
        decreases ps@.len() - i,
    {
        let mut record = ps[i].to_bytes();
        bytes.append(&mut record);
        proof {
            assert(ps@.take(i + 1).drop_last() =~= ps@.take(i as int));
            assert(bytes@ =~= particles_bytes(ps@.take(i + 1)));
        }
        i = i + 1;
    }
    proof {
        assert(ps@.take(ps@.len() as int) =~= ps@);
        lemma_particles_bytes_len(ps@);
    }
    bytes
}

} // verus!
