//! A simulated single-cell organism driven by active inference.
//!
//! The organism senses a scalar nutrient field through two offset receptors,
//! keeps Gaussian-style beliefs over hidden state, selects headings by
//! minimizing expected free energy, remembers high-value places, and slowly
//! reshapes its own sensing parameters from accumulated surprise.
//!
//! All scalar quantities are fixed-point values ([`fixed::Fix`]): micro-units
//! stored in an `i64`. Every state transition is deterministic, with
//! randomness drawn from an explicit seedable generator ([`rng::Rng64`]).

pub mod agent;
pub mod beliefs;
pub mod environment;
pub mod episodic;
pub mod fixed;
pub mod fmt;
pub mod history;
pub mod inference;
pub mod model;
pub mod morphology;
pub mod params;
pub mod planning;
pub mod render;
pub mod spatial;
pub mod rng;
pub mod snapshot;
pub mod trig;
