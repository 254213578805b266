//! A deterministic agent-simulation core on a discrete grid: needs decay,
//! motivation scoring, target claiming, atomic actions, melee combat and
//! genetics-driven reproduction.
//!
//! Physical quantities (energy, health, material constants, genome traits) are
//! fixed-point integers counted in thousandths of a unit (see `num::UNIT`).

mod num_proofs;

pub mod num;
pub mod components;
pub mod objects;
pub mod needs;
pub mod brain;
pub mod motivation;
pub mod agent;
pub mod registry;
pub mod resolver;
pub mod tasks;
pub mod actions;
pub mod combat;
pub mod genetics;
pub mod templates;
pub mod world;
pub mod rendering;
mod random;
