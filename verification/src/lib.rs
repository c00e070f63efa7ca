//! Lumped thermal model of a closed bottle holding water, ice and air.
//!
//! All quantities are fixed-point integers in one coherent unit system, so
//! that every step of the update is exact integer arithmetic:
//!
//! | quantity    | unit                         |
//! |-------------|------------------------------|
//! | mass        | microgram (1e-9 kg)          |
//! | temperature | microdegree Celsius (1e-6 K) |
//! | time        | nanosecond (1e-9 s)          |
//! | energy      | femtojoule (1e-15 J)         |
//!
//! With these units a specific heat in J/(kg K) and a heat-transfer
//! coefficient in W/K keep their SI numbers.
//!
//! [`model`] defines the physics over unbounded integers and [`laws`] proves
//! what holds of it. [`state`] and [`stages`] compute it in machine integers,
//! [`simulation`] adds the clock, the run flag and the initial conditions,
//! [`runs`] proves what holds over resets and whole runs of ticks, and
//! [`editing`] moves the initial conditions in fixed steps.

pub mod units;
pub mod time_scale;
pub mod model;
mod arith;
pub mod stages;
pub mod laws;
pub mod state;
pub mod simulation;
pub mod runs;
pub mod editing;
