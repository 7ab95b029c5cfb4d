//! A combat-resolution estimator: given a weapon material, an armor
//! material, an attack and a weapon, it estimates by randomized sampling
//! the probability that the attack defeats the armor, aggregated over a
//! weighted grid of quality tiers, and reports it as a score in tenths
//! of a point (0 to 100 tenths, i.e. 0.0 to 10.0).
//!
//! All quantities are carried as fixed-point integers so that every
//! comparison of the underlying physical formulas is exact rational
//! arithmetic; the only randomness enters through draws delegated to
//! the `rand` crate.

pub mod grid;
pub mod records;
pub mod sampler;
pub mod score;
pub mod wide;

pub use grid::fdm;
pub use records::Attack;
pub use records::Material;
pub use records::ScoreError;
pub use records::Weapon;
pub use score::attack_score;
