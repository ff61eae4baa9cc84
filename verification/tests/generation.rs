use galaxy_sim::gen::{arm_count, bulge_count, Galaxies, Galaxy, Satellite, ARMS};
use galaxy_sim::particle::Particle;

fn dummy_satellites(n: usize) -> Vec<Satellite> {
    let mut sats: Vec<Satellite> = Vec::new();
    let mut i: usize = 0;
    while i < n {
        let x = (i as f32).to_bits();
        sats.push(Satellite {
            pos: [x, 0, 0],
            vel: [0, x, 0],
        });
        i += 1;
    }
    sats
}

fn structure(particle_count: u32) -> Galaxy {
    Galaxy::Structure {
        particle_count,
        center_pos: [(-5e10f32).to_bits(), (-5e10f32).to_bits(), 0f32.to_bits()],
        center_vel: [(10e6f32).to_bits(), 0f32.to_bits(), 0f32.to_bits()],
        center_mass: 1e35f64.to_bits(),
        center_density: 1e20f64.to_bits(),
        normal: [1f32.to_bits(), 0f32.to_bits(), 0f32.to_bits()],
    }
}

#[test]
fn generate_empty_collection() {
    let gs = Galaxies { galaxy: Vec::new() };
    assert_eq!(gs.total_satellites(), Some(0));
    let out = gs.new(&Vec::new());
    assert!(out.is_empty());
}

#[test]
fn structure_output_length_zero() {
    let gs = Galaxies {
        galaxy: vec![structure(0)],
    };
    assert_eq!(gs.total_satellites(), Some(0));
    let out = gs.new(&dummy_satellites(0));
    assert_eq!(out.len(), 1);
}

#[test]
fn structure_output_length_ten() {
    let gs = Galaxies {
        galaxy: vec![structure(10)],
    };
    assert_eq!(gs.total_satellites(), Some(10));
    let out = gs.new(&dummy_satellites(10));
    assert_eq!(out.len(), 1 + 10);
}

#[test]
fn structure_output_length_hundred() {
    let gs = Galaxies {
        galaxy: vec![structure(100)],
    };
    let out = gs.new(&dummy_satellites(100));
    assert_eq!(out.len(), 1 + 100);
}

#[test]
fn structure_output_length_hundred_thousand() {
    let gs = Galaxies {
        galaxy: vec![structure(100_000)],
    };
    let out = gs.new(&dummy_satellites(100_000));
    assert_eq!(out.len(), 1 + 100_000);
}

#[test]
fn population_split_ten() {
    assert_eq!(bulge_count(10), 2);
    assert_eq!(arm_count(10), 8);
}

#[test]
fn population_split_hundred() {
    assert_eq!(bulge_count(100), 20);
    assert_eq!(arm_count(100), 80);
}

#[test]
fn population_split_hundred_thousand() {
    assert_eq!(bulge_count(100_000), 20_000);
    assert_eq!(arm_count(100_000), 80_000);
}

#[test]
fn population_split_uneven() {
    assert_eq!(bulge_count(7), 1);
    assert_eq!(arm_count(7), 6);
    assert_eq!(bulge_count(7) + arm_count(7), 7);
    assert_eq!(bulge_count(4), 0);
    assert_eq!(arm_count(4), 4);
}

#[test]
fn four_spiral_arms() {
    assert_eq!(ARMS, 4);
}

#[test]
fn explicit_particle_passes_through() {
    let pos = [1.5f32.to_bits(), (-2.5f32).to_bits(), 3.25f32.to_bits()];
    let vel = [0.5f32.to_bits(), 0.25f32.to_bits(), (-0.125f32).to_bits()];
    let mass = 2.0f64.to_bits();
    let density = 4.0f64.to_bits();
    let gs = Galaxies {
        galaxy: vec![Galaxy::Explicit {
            pos,
            vel,
            mass,
            density,
        }],
    };
    assert_eq!(gs.total_satellites(), Some(0));
    let out = gs.new(&Vec::new());
    assert_eq!(out.len(), 1);
    assert_eq!(
        out[0],
        Particle {
            pos,
            vel,
            mass,
            calibrate: density
        }
    );
}

#[test]
fn output_ordering_centers_then_satellites() {
    let explicit_pos = [9f32.to_bits(), 8f32.to_bits(), 7f32.to_bits()];
    let gs = Galaxies {
        galaxy: vec![
            Galaxy::Explicit {
                pos: explicit_pos,
                vel: [0, 0, 0],
                mass: 5.0f64.to_bits(),
                density: 6.0f64.to_bits(),
            },
            structure(3),
        ],
    };
    assert_eq!(gs.total_satellites(), Some(3));
    let sats = dummy_satellites(3);
    let out = gs.new(&sats);
    assert_eq!(out.len(), 2 + 3);

    // The per-description particles come first, in order.
    assert_eq!(out[0].pos, explicit_pos);
    assert_eq!(out[0].mass, 5.0f64.to_bits());
    assert_eq!(out[1].pos, [(-5e10f32).to_bits(), (-5e10f32).to_bits(), 0f32.to_bits()]);
    assert_eq!(out[1].mass, 1e35f64.to_bits());
    assert_eq!(out[1].calibrate, 1e20f64.to_bits());

    // Then the structure's satellites: sampled kinematics, zero mass, the
    // structure's softening value.
    for j in 0..3 {
        assert_eq!(out[2 + j].pos, sats[j].pos);
        assert_eq!(out[2 + j].vel, sats[j].vel);
        assert_eq!(out[2 + j].mass, 0);
        assert_eq!(out[2 + j].calibrate, 1e20f64.to_bits());
    }
}

#[test]
fn satellites_assigned_per_structure_in_order() {
    let gs = Galaxies {
        galaxy: vec![structure(2), structure(3)],
    };
    assert_eq!(gs.total_satellites(), Some(5));
    let sats = dummy_satellites(5);
    let out = gs.new(&sats);
    assert_eq!(out.len(), 2 + 5);
    // First structure's block takes slots 0..2, the second takes 2..5.
    for j in 0..2 {
        assert_eq!(out[2 + j].pos, sats[j].pos);
    }
    for j in 0..3 {
        assert_eq!(out[4 + j].pos, sats[2 + j].pos);
    }
}
