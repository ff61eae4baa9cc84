use galaxy_sim::gen::{Galaxies, Galaxy};
use galaxy_sim::validate::ConfigError;

fn structure(center_mass: u64, center_density: u64, normal: [u32; 3]) -> Galaxy {
    Galaxy::Structure {
        particle_count: 10,
        center_pos: [0, 0, 0],
        center_vel: [0, 0, 0],
        center_mass,
        center_density,
        normal,
    }
}

fn good_mass() -> u64 {
    1e35f64.to_bits()
}

fn good_density() -> u64 {
    1e20f64.to_bits()
}

fn good_normal() -> [u32; 3] {
    [1.0f32.to_bits(), 1.0f32.to_bits(), 0.0f32.to_bits()]
}

#[test]
fn zero_normal_is_rejected() {
    let g = structure(good_mass(), good_density(), [0.0f32.to_bits(); 3]);
    assert_eq!(g.validate(), Err(ConfigError::DegenerateNormal));
}

#[test]
fn negative_zero_normal_is_rejected() {
    let g = structure(good_mass(), good_density(), [(-0.0f32).to_bits(); 3]);
    assert_eq!(g.validate(), Err(ConfigError::DegenerateNormal));
}

#[test]
fn subnormal_normal_is_rejected() {
    let tiny = 1e-40f32;
    assert!(tiny > 0.0 && !tiny.is_normal());
    let g = structure(good_mass(), good_density(), [tiny.to_bits(); 3]);
    assert_eq!(g.validate(), Err(ConfigError::DegenerateNormal));
}

#[test]
fn nan_normal_is_rejected() {
    let g = structure(
        good_mass(),
        good_density(),
        [f32::NAN.to_bits(), 1.0f32.to_bits(), 0.0f32.to_bits()],
    );
    assert_eq!(g.validate(), Err(ConfigError::DegenerateNormal));
}

#[test]
fn infinite_normal_is_rejected() {
    let g = structure(
        good_mass(),
        good_density(),
        [1.0f32.to_bits(), f32::INFINITY.to_bits(), 0.0f32.to_bits()],
    );
    assert_eq!(g.validate(), Err(ConfigError::DegenerateNormal));
}

#[test]
fn one_normal_component_suffices() {
    let g = structure(
        good_mass(),
        good_density(),
        [0.0f32.to_bits(), 0.0f32.to_bits(), 1.0f32.to_bits()],
    );
    assert_eq!(g.validate(), Ok(()));
}

#[test]
fn zero_mass_is_rejected() {
    let g = structure(0.0f64.to_bits(), good_density(), good_normal());
    assert_eq!(g.validate(), Err(ConfigError::NonPositiveMass));
}

#[test]
fn negative_mass_is_rejected() {
    let g = structure((-1e35f64).to_bits(), good_density(), good_normal());
    assert_eq!(g.validate(), Err(ConfigError::NonPositiveMass));
}

#[test]
fn infinite_mass_is_rejected() {
    let g = structure(f64::INFINITY.to_bits(), good_density(), good_normal());
    assert_eq!(g.validate(), Err(ConfigError::NonPositiveMass));
}

#[test]
fn nan_mass_is_rejected() {
    let g = structure(f64::NAN.to_bits(), good_density(), good_normal());
    assert_eq!(g.validate(), Err(ConfigError::NonPositiveMass));
}

#[test]
fn non_positive_density_is_rejected() {
    let g = structure(good_mass(), 0.0f64.to_bits(), good_normal());
    assert_eq!(g.validate(), Err(ConfigError::NonPositiveDensity));
    let g = structure(good_mass(), (-1.0f64).to_bits(), good_normal());
    assert_eq!(g.validate(), Err(ConfigError::NonPositiveDensity));
}

#[test]
fn degenerate_normal_reported_before_bad_mass() {
    let g = structure(0.0f64.to_bits(), good_density(), [0.0f32.to_bits(); 3]);
    assert_eq!(g.validate(), Err(ConfigError::DegenerateNormal));
}

#[test]
fn valid_structure_is_accepted() {
    let g = structure(good_mass(), good_density(), good_normal());
    assert_eq!(g.validate(), Ok(()));
}

#[test]
fn explicit_particle_is_accepted() {
    let g = Galaxy::Explicit {
        pos: [0, 0, 0],
        vel: [0, 0, 0],
        mass: 0,
        density: 0,
    };
    assert_eq!(g.validate(), Ok(()));
}

#[test]
fn collection_reports_first_error() {
    let gs = Galaxies {
        galaxy: vec![
            structure(good_mass(), good_density(), good_normal()),
            structure(0.0f64.to_bits(), good_density(), good_normal()),
            structure(good_mass(), good_density(), [0.0f32.to_bits(); 3]),
        ],
    };
    assert_eq!(gs.validate(), Err(ConfigError::NonPositiveMass));
}

#[test]
fn valid_collection_is_accepted() {
    let gs = Galaxies {
        galaxy: vec![
            structure(good_mass(), good_density(), good_normal()),
            Galaxy::Explicit {
                pos: [0, 0, 0],
                vel: [0, 0, 0],
                mass: 0,
                density: 0,
            },
        ],
    };
    assert_eq!(gs.validate(), Ok(()));
}

#[test]
fn empty_collection_is_accepted() {
    let gs = Galaxies { galaxy: Vec::new() };
    assert_eq!(gs.validate(), Ok(()));
}
