//! A discrete-time collision core for circular bodies ("balls") confined to a
//! rectangular arena among static rectangular obstacles ("walls"), one of
//! which may carry a runtime gate flag.
//!
//! Coordinates, velocities and time steps are fixed-point integers: the caller
//! picks a scale (subunits per world unit) and supplies every quantity in
//! subunits, so all of the geometry here is exact. A simulation step runs
//! boundary reflection, then predictive obstacle collision, then integration;
//! `step::simulation_step` performs the three in that order.

pub mod boundary;
pub mod geometry;
pub mod integration;
pub mod motion;
pub mod prediction;
pub mod state;
pub mod step;
