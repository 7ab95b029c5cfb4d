//! The caller-supplied value records the estimator consumes, their
//! validity bounds, and the error the estimator can raise.
//!
//! Every physical magnitude is a plain unsigned integer.  The bounds in
//! the `valid` predicates keep each intermediate product of the trial
//! formulas inside the machine words the estimator computes with; the
//! tighter bound on the strain fields keeps the per-trial partial credit
//! (`strain / 50000` of a full success) at or below a full success, which
//! is what confines the final score to the 0.0..=10.0 range.

use vstd::prelude::*;

verus! {

/// Largest admitted value for any material, attack or weapon magnitude.
pub const FIELD_LIMIT: u64 = 10_000_000;

/// Largest admitted value for the two strain-at-yield fields.
pub const STRAIN_LIMIT: u64 = 50_000;

/// Physical properties of a substance; used once as the weapon's material
/// and once as the armor's material per call.  `name` and `armor` are
/// informational and never read by the estimator.
#[derive(Clone)]
pub struct Material {
    pub name: String,
    pub solid_density: u64,
    pub impact_yield: u64,
    pub impact_fracture: u64,
    pub impact_strain_at_yield: u64,
    pub shear_yield: u64,
    pub shear_fracture: u64,
    pub shear_strain_at_yield: u64,
    pub max_edge: u64,
    pub armor: bool,
}

impl Material {
    pub open spec fn valid(self) -> bool {
        &&& self.solid_density <= FIELD_LIMIT
        &&& self.impact_yield <= FIELD_LIMIT
        &&& self.impact_fracture <= FIELD_LIMIT
        &&& self.impact_strain_at_yield <= STRAIN_LIMIT
        &&& self.shear_yield <= FIELD_LIMIT
        &&& self.shear_fracture <= FIELD_LIMIT
        &&& self.shear_strain_at_yield <= STRAIN_LIMIT
        &&& self.max_edge <= FIELD_LIMIT
    }
}

/// One strike descriptor: cutting or blunt mechanics, the strike's
/// velocity, and the attacker-supplied ceiling on the contact area.
#[derive(Clone)]
pub struct Attack {
    pub name: String,
    pub edged: bool,
    pub velocity: u64,
    pub area: u64,
}

impl Attack {
    pub open spec fn valid(self) -> bool {
        &&& self.velocity <= FIELD_LIMIT
        &&& self.area <= FIELD_LIMIT
    }
}

/// A weapon: its size stands in for volume and mass.  The attack list is
/// carried for the caller's benefit; the estimator is handed one attack
/// separately and never reads the list.
#[derive(Clone)]
pub struct Weapon {
    pub name: String,
    pub size: u64,
    pub attacks: Vec<Attack>,
}

impl Weapon {
    pub open spec fn valid(self) -> bool {
        self.size <= FIELD_LIMIT
    }
}

/// The two failure kinds the estimator's interface distinguishes:
/// a structurally bad record (raised by callers that parse loose input
/// into the records), and an arithmetic failure (a divisor of the trial
/// formulas is zero, which would make the score meaningless).
#[derive(Clone, Copy, Debug, PartialEq, Eq, Structural)]
pub enum ScoreError {
    MalformedInput,
    ArithmeticFailure,
}

} // verus!
