//! An open-circuit technical dive planner built on the Buhlmann ZHL-16
//! tissue-compartment model with gradient factors.
//!
//! All physical quantities are carried as scaled integers: pressures in
//! nanobar, depths in whole metres, durations in whole seconds.  Tissue
//! loading is advanced one second at a time, which in exact arithmetic is
//! the Haldane equation for flat segments and the Schreiner ramp for
//! depth changes, and lets every routine state precisely what it computes.

use vstd::prelude::*;

pub mod units;
pub mod environment;
pub mod gas;
pub mod segment;
pub mod tissue;
pub mod tissue_constants;
pub mod gradient_factor;
pub mod tank;
pub mod deco_stop;
pub mod model;
pub mod engine;
pub mod builder;
pub mod laws;
pub mod parameter;
pub mod plan_result;
pub mod plan_model;
pub mod open_circuit;

verus! {

} // verus!
