//! Galaxy descriptions and the generator's structure.
//!
//! A collection of descriptions turns into one flat particle array: first
//! one particle per description, in order — the literal particle of an
//! explicit entry, or the center particle of a structure — then, for each
//! structure in the same order, its satellites. A structure with
//! `particle_count` = P yields P satellites, the first ⌊P/5⌋ sampled into
//! the dense bulge and the remaining P − ⌊P/5⌋ spread over the spiral
//! arms.
//!
//! The kinematic state of each satellite (its position and velocity, found
//! by sampling a radius and an angle in the orbital plane and applying the
//! softened circular-orbit speed) is real arithmetic and is handed in by
//! the caller as one `Satellite` record per slot, already in bulge-first
//! order. Everything else — how many satellites each description owes,
//! where every particle lands in the output, and which mass and softening
//! values they carry — is decided and verified here.

use vstd::prelude::*;

use crate::particle::Particle;

verus! {

/// The number of spiral arms of a generated structure.
pub const ARMS: u32 = 4;

/// One entry of a galaxy collection: a literal particle, or a structure
/// to synthesize around a center mass. Every scalar is an IEEE-754 bit
/// pattern.
#[derive(Clone, Copy, Debug, PartialEq, Eq)]
pub enum Galaxy {
    /// A single particle emitted unchanged.
    Explicit { pos: [u32; 3], vel: [u32; 3], mass: u64, density: u64 },
    /// A center particle plus `particle_count` satellites laid out as a
    /// bulge and spiral arms in the plane orthogonal to `normal`.
    Structure {
        particle_count: u32,
        center_pos: [u32; 3],
        center_vel: [u32; 3],
        center_mass: u64,
        center_density: u64,
        normal: [u32; 3],
    },
}

/// An ordered collection of galaxy descriptions.
pub struct Galaxies {
    pub galaxy: Vec<Galaxy>,
}

/// The sampled kinematic state of one satellite: position and velocity,
/// as 32-bit IEEE-754 bit patterns.
#[derive(Clone, Copy, Debug, PartialEq, Eq)]
pub struct Satellite {
    pub pos: [u32; 3],
    pub vel: [u32; 3],
}

/// How many satellites one description owes.
pub open spec fn spec_satellite_count(g: Galaxy) -> nat {
    match g {
        Galaxy::Explicit { .. } => 0,
        Galaxy::Structure { particle_count, .. } => particle_count as nat,
    }
}

/// How many satellites a whole collection owes.
pub open spec fn spec_total_satellites(gs: Seq<Galaxy>) -> nat
    decreases gs.len(),
{
    if gs.len() == 0 {
        0
    } else {
        spec_total_satellites(gs.drop_last()) + spec_satellite_count(gs.last())
    }
}

/// The softening value a description's particles carry.
pub open spec fn spec_softening(g: Galaxy) -> u64 {
    match g {
        Galaxy::Explicit { density, .. } => density,
        Galaxy::Structure { center_density, .. } => center_density,
    }
}

/// The one particle a description emits first: the literal particle
/// itself, or the structure's center.
pub open spec fn spec_center_particle(g: Galaxy) -> Particle {
    match g {
        Galaxy::Explicit { pos, vel, mass, density } => Particle {
            pos,
            vel,
            mass,
            calibrate: density,
        },
        Galaxy::Structure { center_pos, center_vel, center_mass, center_density, .. } => Particle {
            pos: center_pos,
            vel: center_vel,
            mass: center_mass,
            calibrate: center_density,
        },
    }
}

/// A satellite particle: the sampled kinematics, a zero mass (satellites
/// are test particles) and the description's softening value.
pub open spec fn spec_satellite_particle(g: Galaxy, s: Satellite) -> Particle {
    Particle { pos: s.pos, vel: s.vel, mass: 0, calibrate: spec_softening(g) }
}

/// The leading block of the output: one particle per description, in
/// collection order.
pub open spec fn spec_centers(gs: Seq<Galaxy>) -> Seq<Particle> {
    Seq::new(gs.len(), |i: int| spec_center_particle(gs[i]))
}

/// One description's satellites, built from the front of `ss`.
pub open spec fn spec_satellite_block(g: Galaxy, ss: Seq<Satellite>) -> Seq<Particle> {
    Seq::new(spec_satellite_count(g), |j: int| spec_satellite_particle(g, ss[j]))
}

/// The satellite blocks of a collection laid end to end, each description
/// drawing its slots of `ss` in collection order.
pub open spec fn spec_satellites(gs: Seq<Galaxy>, ss: Seq<Satellite>) -> Seq<Particle>
    decreases gs.len(),
{
    if gs.len() == 0 {
        Seq::empty()
    } else {
        spec_satellites(gs.drop_last(), ss) + spec_satellite_block(
            gs.last(),
            ss.skip(spec_total_satellites(gs.drop_last()) as int),
        )
    }
}

/// The whole generated array: the per-description particles, then every
/// structure's satellites.
pub open spec fn spec_generate(gs: Seq<Galaxy>, ss: Seq<Satellite>) -> Seq<Particle> {
    spec_centers(gs) + spec_satellites(gs, ss)
}

/// The satellite part of the output is exactly as long as the satellites
/// owed.
pub proof fn lemma_spec_satellites_len(gs: Seq<Galaxy>, ss: Seq<Satellite>)
    ensures
        spec_satellites(gs, ss).len() == spec_total_satellites(gs),
    decreases gs.len(),
{
    if gs.len() > 0 {
        lemma_spec_satellites_len(gs.drop_last(), ss);
    }
}

/// Taking one more description adds exactly its own satellites to the
/// count.
pub proof fn lemma_total_satellites_take_succ(gs: Seq<Galaxy>, k: int)
    requires
        0 <= k < gs.len(),
    ensures
        spec_total_satellites(gs.take(k + 1)) == spec_total_satellites(gs.take(k))
            + spec_satellite_count(gs[k]),
{
    assert(gs.take(k + 1).drop_last() =~= gs.take(k));
}

/// A prefix of the collection owes no more satellites than the whole.
pub proof fn lemma_total_satellites_take_le(gs: Seq<Galaxy>, k: int)
    requires
        0 <= k <= gs.len(),
    ensures
        spec_total_satellites(gs.take(k)) <= spec_total_satellites(gs),
    decreases gs.len(),
{
    if k == gs.len() {
        assert(gs.take(k) =~= gs);
    } else if gs.len() > 0 {
        assert(gs.drop_last().take(k) =~= gs.take(k));
        lemma_total_satellites_take_le(gs.drop_last(), k);
    }
}

/// Every particle of the output, by index: the first `gs.len()` slots
/// hold each description's own particle in order, and satellite `j` of
/// description `k` sits right after them, at the collection-wide slot its
/// predecessors' counts add up to.
pub proof fn lemma_satellites_slot(gs: Seq<Galaxy>, ss: Seq<Satellite>, k: int, j: int)
    requires
        ss.len() >= spec_total_satellites(gs),
        0 <= k < gs.len(),
        0 <= j < spec_satellite_count(gs[k]),
    ensures
        spec_total_satellites(gs.take(k)) + j < spec_total_satellites(gs),
        spec_satellites(gs, ss)[spec_total_satellites(gs.take(k)) + j]
            == spec_satellite_particle(gs[k], ss[spec_total_satellites(gs.take(k)) + j]),
    decreases gs.len(),
{
    lemma_spec_satellites_len(gs.drop_last(), ss);
    lemma_total_satellites_take_succ(gs, k);
    lemma_total_satellites_take_le(gs, k + 1);
    if k == gs.len() - 1 {
        assert(gs.take(k) =~= gs.drop_last());
        assert(spec_satellites(gs, ss)[spec_total_satellites(gs.take(k)) + j]
            == spec_satellite_block(gs.last(), ss.skip(spec_total_satellites(gs.drop_last()) as int))[j]);
    } else {
        assert(gs.drop_last().take(k) =~= gs.take(k));
        lemma_satellites_slot(gs.drop_last(), ss, k, j);
        lemma_total_satellites_take_le(gs.drop_last(), k + 1);
        assert(gs.drop_last().take(k + 1) =~= gs.take(k + 1));
    }
}

/// The generated array, read back slot by slot: descriptions' own
/// particles first, then each structure's satellites at their owed
/// offsets.
pub proof fn lemma_generate_layout(gs: Seq<Galaxy>, ss: Seq<Satellite>, k: int, j: int)
    requires
        ss.len() == spec_total_satellites(gs),
        0 <= k < gs.len(),
        0 <= j < spec_satellite_count(gs[k]),
    ensures
        spec_generate(gs, ss)[k] == spec_center_particle(gs[k]),
        gs.len() + spec_total_satellites(gs.take(k)) + j < spec_generate(gs, ss).len(),
        spec_generate(gs, ss)[gs.len() + spec_total_satellites(gs.take(k)) + j]
            == spec_satellite_particle(gs[k], ss[spec_total_satellites(gs.take(k)) + j]),
{
    lemma_spec_satellites_len(gs, ss);
    lemma_satellites_slot(gs, ss, k, j);
}

/// A single structure of `particle_count` = P generates exactly 1 + P
/// particles: its center, then its P satellites.
pub proof fn lemma_single_structure_length(g: Galaxy, ss: Seq<Satellite>)
    requires
        ss.len() == spec_satellite_count(g),
    ensures
        spec_total_satellites(seq![g]) == spec_satellite_count(g),
        spec_generate(seq![g], ss).len() == 1 + spec_satellite_count(g),
{
    assert(seq![g].drop_last() =~= Seq::<Galaxy>::empty());
    assert(spec_total_satellites(Seq::<Galaxy>::empty()) == 0);
    lemma_spec_satellites_len(seq![g], ss);
}

/// How many of a structure's satellites belong to the dense bulge.
pub fn bulge_count(particle_count: u32) -> (r: u32)
    ensures
        r == particle_count / 5,
{
    particle_count / 5
}

/// How many of a structure's satellites belong to the spiral arms.
pub fn arm_count(particle_count: u32) -> (r: u32)
    ensures
        r == particle_count - particle_count / 5,
{
    particle_count - particle_count / 5
}

/// The bulge and the arms partition a structure's satellites: their
/// counts always sum back to the particle count.
pub proof fn lemma_population_partition(particle_count: u32)
    ensures
        particle_count / 5 + (particle_count - particle_count / 5) == particle_count,
        particle_count / 5 <= particle_count,
{
}

impl Galaxies {
    /// How many satellite slots this collection owes in all, or nothing
    /// when that number cannot be held in a `usize`.
    pub fn total_satellites(&self) -> (r: Option<usize>)
        ensures
            r matches Some(t) ==> t == spec_total_satellites(self.galaxy@),
            r is None ==> spec_total_satellites(self.galaxy@) > usize::MAX,
    {
        let mut total: usize = 0;
        let mut i: usize = 0;
        while i < self.galaxy.len()
            invariant
                i <= self.galaxy@.len(),
                total == spec_total_satellites(self.galaxy@.take(i as int)),
            decreases self.galaxy@.len() - i,
        {
            let c: u32 = match &self.galaxy[i] {
                Galaxy::Explicit { .. } => 0,
                Galaxy::Structure { particle_count, .. } => *particle_count,
            };
            proof {
                lemma_total_satellites_take_succ(self.galaxy@, i as int);
            }
            if total > usize::MAX - c as usize {
                proof {
                    lemma_total_satellites_take_le(self.galaxy@, i + 1);
                }
                return None;
            }
            total = total + c as usize;
            i = i + 1;
        }
        proof {
            assert(self.galaxy@.take(self.galaxy@.len() as int) =~= self.galaxy@);
        }
        Some(total)
    }
}

/// Appends one description's satellites to the output: for each of a
/// structure's slots, the sampled kinematics at `start` onward in
/// `sats`, a zero mass, and the structure's softening value. An explicit
/// entry owes no satellites and appends nothing.
pub fn create_galaxy(particles: &mut Vec<Particle>, g: &Galaxy, sats: &Vec<Satellite>, start: usize)
    requires
        start + spec_satellite_count(*g) <= sats@.len(),
    ensures
        final(particles)@ == old(particles)@ + spec_satellite_block(
            *g,
            sats@.skip(start as int),
        ),
{
    match g {
        Galaxy::Explicit { .. } => {
            assert(particles@ =~= old(particles)@ + spec_satellite_block(
                *g,
                sats@.skip(start as int),
            ));
        },
        Galaxy::Structure { particle_count, center_density, .. } => {
            let n: u32 = *particle_count;
            let d: u64 = *center_density;
            let cap: usize = sats.len();
            let mut j: usize = 0;
            while j < n as usize
                invariant
                    j <= n,
                    start + n <= cap,
                    cap == sats@.len(),
                    spec_satellite_count(*g) == n,
                    spec_softening(*g) == d,
                    particles@ == old(particles)@ + spec_satellite_block(
                        *g,
                        sats@.skip(start as int),
                    ).take(j as int),
                decreases n - j,
            {
                let s = sats[start + j];
                particles.push(Particle::new(s.pos, s.vel, 0, d));
                proof {
                    assert(spec_satellite_block(*g, sats@.skip(start as int)).take(j + 1)
                        =~= spec_satellite_block(*g, sats@.skip(start as int)).take(
                        j as int,
                    ).push(spec_satellite_particle(*g, s)));
                    assert(particles@ =~= old(particles)@ + spec_satellite_block(
                        *g,
                        sats@.skip(start as int),
                    ).take(j + 1));
                }
                j = j + 1;
            }
            proof {
                assert(spec_satellite_block(*g, sats@.skip(start as int)).take(n as int)
                    =~= spec_satellite_block(*g, sats@.skip(start as int)));
            }
        },
    }
}

impl Galaxies {
    /// Generates the particle array this collection describes: one
    /// particle per description in order, then each structure's
    /// satellites, built from `sats` — one sampled kinematic record per
    /// owed slot, in the same order.
    ///
    /// The descriptions are assumed to have passed the validation
    /// boundary; nothing is re-checked here.
    pub fn new(&self, sats: &Vec<Satellite>) -> (particles: Vec<Particle>)
        requires
            sats@.len() == spec_total_satellites(self.galaxy@),
        ensures
            particles@ == spec_generate(self.galaxy@, sats@),
            particles@.len() == self.galaxy@.len() + spec_total_satellites(self.galaxy@),
    {
        let gs = Ghost(self.galaxy@);
        let mut particles: Vec<Particle> = Vec::new();
        let mut i: usize = 0;
        while i < self.galaxy.len()
            invariant
                gs@ == self.galaxy@,
                i <= gs@.len(),
                particles@ == spec_centers(gs@).take(i as int),
            decreases gs@.len() - i,
        {
            let p = match &self.galaxy[i] {
                Galaxy::Explicit { pos, vel, mass, density } => Particle::new(
                    *pos,
                    *vel,
                    *mass,
                    *density,
                ),
                Galaxy::Structure {
                    center_pos,
                    center_vel,
                    center_mass,
                    center_density,
                    ..
                } => Particle::new(*center_pos, *center_vel, *center_mass, *center_density),
            };
            particles.push(p);
            proof {
                assert(particles@ =~= spec_centers(gs@).take(i + 1));
            }
            i = i + 1;
        }
        proof {
            assert(spec_centers(gs@).take(gs@.len() as int) =~= spec_centers(gs@));
        }
        let cap: usize = sats.len();
        let mut used: usize = 0;
        let mut k: usize = 0;
        while k < self.galaxy.len()
            invariant
                gs@ == self.galaxy@,
                k <= gs@.len(),
                cap == sats@.len(),
                sats@.len() == spec_total_satellites(gs@),
                used == spec_total_satellites(gs@.take(k as int)),
                particles@ == spec_centers(gs@) + spec_satellites(gs@.take(k as int), sats@),
            decreases gs@.len() - k,
        {
            proof {
                lemma_total_satellites_take_succ(gs@, k as int);
                lemma_total_satellites_take_le(gs@, k + 1);
            }
            let g = &self.galaxy[k];
            create_galaxy(&mut particles, g, sats, used);
            proof {
                assert(gs@.take(k + 1).drop_last() =~= gs@.take(k as int));
                assert(spec_satellites(gs@.take(k + 1), sats@) == spec_satellites(
                    gs@.take(k as int),
                    sats@,
                ) + spec_satellite_block(gs@[k as int], sats@.skip(used as int)));
            }
            let c: u32 = match g {
                Galaxy::Explicit { .. } => 0,
                Galaxy::Structure { particle_count, .. } => *particle_count,
            };
            used = used + c as usize;
            k = k + 1;
        }
        proof {
            assert(gs@.take(gs@.len() as int) =~= gs@);
            lemma_spec_satellites_len(gs@, sats@);
        }
        particles
    }
}

} // verus!
