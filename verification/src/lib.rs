//! Aircraft systems in fixed-point arithmetic.
//!
//! The main part is an engine thrust-reverser actuation assembly: an
//! electrical lock, a hydraulic manifold and a position actuator that are
//! advanced together once per simulation tick. Every continuous quantity is
//! an integer count: ratios in billionths, pressures in pascals, time in
//! nanoseconds. Each part has a mathematical model, the functions that
//! advance it are proved to follow that model, and `reverser::laws` proves
//! what the model does over whole runs of ticks.
//!
//! Beside it stand the payload stations of the aircraft.

pub mod electrical;
pub mod fixed_point;
pub mod low_pass_filter;
pub mod payload;
pub mod pressure_switch;
pub mod reverser;
