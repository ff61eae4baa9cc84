//! The validation boundary for galaxy descriptions.
//!
//! Generation assumes well-formed input and is specified to produce
//! undefined numbers when given a degenerate one, so a description is
//! checked here before it ever reaches the generator: an orbital-plane
//! normal of (near-)zero length, a non-positive center mass or a
//! non-positive softening value is rejected as a configuration error.
//!
//! The scalars are IEEE-754 bit patterns, so the checks are exact bit
//! tests. A 32-bit pattern with exponent field 255 is an infinity or NaN;
//! one with exponent field 0 is a zero or a subnormal, of magnitude below
//! the smallest normal number. A normal vector is degenerate when a
//! component is non-finite or when all three are that tiny, which makes
//! its length vanish to working precision. A 64-bit pattern is strictly
//! positive exactly when it is finite, its sign bit is clear and its
//! magnitude bits are not all zero.

use vstd::prelude::*;

use crate::gen::{Galaxies, Galaxy};

verus! {

/// The exponent field of a 32-bit IEEE-754 pattern.
pub open spec fn f32_exponent(bits: u32) -> u32 {
    (bits >> 23) & 0xff
}

/// Whether a 32-bit pattern is a finite number (not an infinity or NaN).
pub open spec fn f32_is_finite(bits: u32) -> bool {
    f32_exponent(bits) != 0xff
}

/// Whether a 32-bit pattern is a zero or subnormal: its magnitude lies
/// below the smallest normal number.
pub open spec fn f32_is_tiny(bits: u32) -> bool {
    f32_exponent(bits) == 0
}

/// The exponent field of a 64-bit IEEE-754 pattern.
pub open spec fn f64_exponent(bits: u64) -> u64 {
    (bits >> 52) & 0x7ff
}

/// Whether a 64-bit pattern is a finite number (not an infinity or NaN).
pub open spec fn f64_is_finite(bits: u64) -> bool {
    f64_exponent(bits) != 0x7ff
}

/// Whether a 64-bit pattern is a finite number strictly above zero: sign
/// bit clear, magnitude bits not all zero, exponent not saturated.
pub open spec fn f64_is_strictly_positive(bits: u64) -> bool {
    (bits >> 63) == 0 && (bits & 0x7fff_ffff_ffff_ffff) != 0 && f64_is_finite(bits)
}

/// Whether an orbital-plane normal is degenerate: a component that is not
/// a finite number, or a vector whose every component is zero or
/// subnormal, whose length therefore vanishes to working precision.
pub open spec fn spec_normal_degenerate(normal: [u32; 3]) -> bool {
    ||| !f32_is_finite(normal[0])
    ||| !f32_is_finite(normal[1])
    ||| !f32_is_finite(normal[2])
    ||| (f32_is_tiny(normal[0]) && f32_is_tiny(normal[1]) && f32_is_tiny(normal[2]))
}

/// A configuration error found at the validation boundary.
#[derive(Clone, Copy, Debug, PartialEq, Eq)]
pub enum ConfigError {
    /// The orbital-plane normal has (near-)zero length or a non-finite
    /// component.
    DegenerateNormal,
    /// The center mass is not a finite number strictly above zero.
    NonPositiveMass,
    /// The softening value is not a finite number strictly above zero.
    NonPositiveDensity,
}

/// The verdict on one description: an explicit particle is emitted as-is
/// and passes; a structure is checked for a degenerate normal first, then
/// a non-positive center mass, then a non-positive softening value.
pub open spec fn spec_validate(g: Galaxy) -> Result<(), ConfigError> {
    match g {
        Galaxy::Explicit { .. } => Ok(()),
        Galaxy::Structure { center_mass, center_density, normal, .. } => {
            if spec_normal_degenerate(normal) {
                Err(ConfigError::DegenerateNormal)
            } else if !f64_is_strictly_positive(center_mass) {
                Err(ConfigError::NonPositiveMass)
            } else if !f64_is_strictly_positive(center_density) {
                Err(ConfigError::NonPositiveDensity)
            } else {
                Ok(())
            }
        },
    }
}

/// Whether a 32-bit component is a finite number.
pub fn f32_bits_finite(bits: u32) -> (r: bool)
    ensures
        r == f32_is_finite(bits),
{
    (bits >> 23) & 0xff != 0xff
}

/// Whether a 32-bit component is a zero or subnormal.
pub fn f32_bits_tiny(bits: u32) -> (r: bool)
    ensures
        r == f32_is_tiny(bits),
{
    (bits >> 23) & 0xff == 0
}

/// Whether a 64-bit scalar is a finite number strictly above zero.
pub fn f64_bits_strictly_positive(bits: u64) -> (r: bool)
    ensures
        r == f64_is_strictly_positive(bits),
{
    (bits >> 63) == 0 && (bits & 0x7fff_ffff_ffff_ffff) != 0 && (bits >> 52) & 0x7ff != 0x7ff
}

/// Whether an orbital-plane normal is degenerate.
pub fn normal_degenerate(normal: &[u32; 3]) -> (r: bool)
    ensures
        r == spec_normal_degenerate(*normal),
{
    !f32_bits_finite(normal[0]) || !f32_bits_finite(normal[1]) || !f32_bits_finite(normal[2])
        || (f32_bits_tiny(normal[0]) && f32_bits_tiny(normal[1]) && f32_bits_tiny(normal[2]))
}

impl Galaxy {
    /// Checks one description at the boundary, before generation.
    pub fn validate(&self) -> (r: Result<(), ConfigError>)
        ensures
            r == spec_validate(*self),
    {
        match self {
            Galaxy::Explicit { .. } => Ok(()),
            Galaxy::Structure { center_mass, center_density, normal, .. } => {
                if normal_degenerate(normal) {
                    Err(ConfigError::DegenerateNormal)
                } else if !f64_bits_strictly_positive(*center_mass) {
                    Err(ConfigError::NonPositiveMass)
                } else if !f64_bits_strictly_positive(*center_density) {
                    Err(ConfigError::NonPositiveDensity)
                } else {
                    Ok(())
                }
            },
        }
    }
}

/// The verdict on a whole collection: the error of its first rejected
/// description, in order, or acceptance when every description passes.
pub open spec fn spec_validate_all(gs: Seq<Galaxy>) -> Result<(), ConfigError>
    decreases gs.len(),
{
    if gs.len() == 0 {
        Ok(())
    } else if spec_validate(gs[0]) is Err {
        spec_validate(gs[0])
    } else {
        spec_validate_all(gs.skip(1))
    }
}

impl Galaxies {
    /// Checks a whole collection at the boundary, reporting the first
    /// rejected description's error.
    pub fn validate(&self) -> (r: Result<(), ConfigError>)
        ensures
            r == spec_validate_all(self.galaxy@),
    {
        let mut i: usize = 0;
        proof {
            assert(self.galaxy@.skip(0) =~= self.galaxy@);
        }
        while i < self.galaxy.len()
            invariant
                i <= self.galaxy@.len(),
                spec_validate_all(self.galaxy@) == spec_validate_all(self.galaxy@.skip(i as int)),
            decreases self.galaxy@.len() - i,
        {
            if let Err(e) = self.galaxy[i].validate() {
                return Err(e);
            }
            proof {
                assert(self.galaxy@.skip(i as int).skip(1) =~= self.galaxy@.skip(i + 1));
            }
            i = i + 1;
        }
        proof {
            assert(self.galaxy@.skip(i as int) =~= Seq::<Galaxy>::empty());
        }
        Ok(())
    }
}

/// A collection passes validation exactly when each of its descriptions
/// does.
pub proof fn lemma_validate_all_ok(gs: Seq<Galaxy>)
    ensures
        (spec_validate_all(gs) is Ok) <==> (forall|i: int|
            0 <= i < gs.len() ==> spec_validate(gs[i]) is Ok),
    decreases gs.len(),
{
    if gs.len() > 0 {
        lemma_validate_all_ok(gs.skip(1));
        if spec_validate_all(gs) is Ok {
            assert forall|i: int| 0 <= i < gs.len() implies spec_validate(gs[i]) is Ok by {
                if i > 0 {
                    assert(gs.skip(1)[i - 1] == gs[i]);
                }
            }
        }
        if forall|i: int| 0 <= i < gs.len() ==> spec_validate(gs[i]) is Ok {
            assert forall|i: int| 0 <= i < gs.skip(1).len() implies spec_validate(
                gs.skip(1)[i],
            ) is Ok by {
                assert(gs.skip(1)[i] == gs[i + 1]);
            }
        }
    }
}

} // verus!
