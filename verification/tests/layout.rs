use galaxy_sim::globals::{
    Globals, F32_DEFAULT_DELTA_BITS, F32_ONE_BITS, F64_ONE_BITS, GLOBALS_BYTES,
};
use galaxy_sim::particle::{encode_particles, Particle, PARTICLE_BYTES};

fn sample_particle() -> Particle {
    Particle::new(
        [1.5e10f32.to_bits(), (-2.25e9f32).to_bits(), 3.75f32.to_bits()],
        [(-1.0e6f32).to_bits(), 2.5e5f32.to_bits(), 0.0f32.to_bits()],
        1e30f64.to_bits(),
        1e20f64.to_bits(),
    )
}

#[test]
fn named_bit_patterns_match_ieee754() {
    assert_eq!(F32_ONE_BITS, 1.0f32.to_bits());
    assert_eq!(F64_ONE_BITS, 1.0f64.to_bits());
    assert_eq!(F32_DEFAULT_DELTA_BITS, 0.0001f32.to_bits());
}

#[test]
fn particle_record_roundtrip() {
    let p = sample_particle();
    let bytes = p.to_bytes();
    assert_eq!(bytes.len(), PARTICLE_BYTES);
    let q = Particle::from_bytes(&bytes).unwrap();
    assert_eq!(q, p);
    // Bit-identical fields, read back as the numbers they encode.
    assert_eq!(f32::from_bits(q.pos[0]), 1.5e10f32);
    assert_eq!(f32::from_bits(q.vel[1]), 2.5e5f32);
    assert_eq!(f64::from_bits(q.mass), 1e30f64);
    assert_eq!(f64::from_bits(q.calibrate), 1e20f64);
}

#[test]
fn particle_record_layout_offsets() {
    let p = sample_particle();
    let bytes = p.to_bytes();
    // Three position words, a pad, three velocity words, a pad, then the
    // two 64-bit words.
    assert_eq!(bytes[0..4], p.pos[0].to_le_bytes());
    assert_eq!(bytes[4..8], p.pos[1].to_le_bytes());
    assert_eq!(bytes[8..12], p.pos[2].to_le_bytes());
    assert_eq!(bytes[12..16], [0u8; 4]);
    assert_eq!(bytes[16..20], p.vel[0].to_le_bytes());
    assert_eq!(bytes[20..24], p.vel[1].to_le_bytes());
    assert_eq!(bytes[24..28], p.vel[2].to_le_bytes());
    assert_eq!(bytes[28..32], [0u8; 4]);
    assert_eq!(bytes[32..40], p.mass.to_le_bytes());
    assert_eq!(bytes[40..48], p.calibrate.to_le_bytes());
}

#[test]
fn particle_from_bytes_rejects_wrong_length() {
    let p = sample_particle();
    let mut bytes = p.to_bytes();
    bytes.push(0);
    assert!(Particle::from_bytes(&bytes).is_none());
    assert!(Particle::from_bytes(&Vec::new()).is_none());
}

#[test]
fn particle_array_encoding_concatenates_records() {
    let p = sample_particle();
    let q = Particle::new([1, 2, 3], [4, 5, 6], 7, 8);
    let buffer = encode_particles(&vec![p, q]);
    assert_eq!(buffer.len(), 2 * PARTICLE_BYTES);
    assert_eq!(buffer[0..PARTICLE_BYTES], p.to_bytes()[..]);
    assert_eq!(buffer[PARTICLE_BYTES..2 * PARTICLE_BYTES], q.to_bytes()[..]);
}

#[test]
fn globals_record_layout_offsets() {
    let mut g = Globals::default();
    g.particles = 100_000;
    g.matrix[0][1] = 2.5f32.to_bits();
    g.matrix[3][3] = (-1.0f32).to_bits();
    let bytes = g.to_bytes();
    assert_eq!(bytes.len(), GLOBALS_BYTES);
    // The sixteen matrix words, row by row.
    for row in 0..4 {
        for col in 0..4 {
            let off = 4 * (4 * row + col);
            assert_eq!(bytes[off..off + 4], g.matrix[row][col].to_le_bytes());
        }
    }
    // The particle count, pad, safety word, delta word, trailing pad.
    assert_eq!(bytes[64..68], 100_000u32.to_le_bytes());
    assert_eq!(bytes[68..72], [0u8; 4]);
    assert_eq!(bytes[72..80], g.safety.to_le_bytes());
    assert_eq!(bytes[80..84], g.delta.to_le_bytes());
    assert_eq!(bytes[84..96], [0u8; 12]);
}

#[test]
fn globals_default_values() {
    let g = Globals::default();
    assert_eq!(g.particles, 0);
    assert_eq!(f64::from_bits(g.safety), 1.0);
    assert_eq!(f32::from_bits(g.delta), 0.0001);
    for row in 0..4 {
        for col in 0..4 {
            let expected = if row == col { 1.0f32 } else { 0.0f32 };
            assert_eq!(f32::from_bits(g.matrix[row][col]), expected);
        }
    }
}
