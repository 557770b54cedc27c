//! Simulation core of a world server: the per-character teleportation state
//! machine, the registry of live map instances, the per-tick pass over the
//! connected characters, and the decisions of the fixed-cadence tick
//! scheduler.
pub mod character;
pub mod clients;
pub mod data;
pub mod scheduler;
pub mod world;
