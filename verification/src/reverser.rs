//! The thrust-reverser actuation assembly and its parts.

pub mod actuator;
pub mod assembly;
pub mod interface;
pub mod laws;
pub mod lock;
pub mod manifold;
pub mod valves;
